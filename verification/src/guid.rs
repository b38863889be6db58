//! The identity of a record.

use vstd::prelude::*;
use vstd::std_specs::cmp::PartialEqSpecImpl;

verus! {

/// The stable identity of a record: an opaque text, compared character by
/// character. Its view is that text.
#[derive(Debug, Hash)]
pub struct Guid {
    text: String,
}

impl View for Guid {
    type V = Seq<char>;

    closed spec fn view(&self) -> Seq<char> {
        self.text@
    }
}

impl Guid {
    /// The guid with the text `s`.
    pub fn new(s: &str) -> (g: Guid)
        ensures
            g@ == s@,
    {
        Guid { text: s.to_owned() }
    }

    /// The guid with the text `s`, without copying it.
    pub fn from_string(s: String) -> (g: Guid)
        ensures
            g@ == s@,
    {
        Guid { text: s }
    }

    /// The text of the guid.
    #[inline]
    pub fn as_str(&self) -> (s: &str)
        ensures
            s@ == self@,
    {
        self.text.as_str()
    }

    /// The text of the guid, given away.
    pub fn into_string(self) -> (s: String)
        ensures
            s@ == self@,
    {
        self.text
    }

    /// Whether the guid has no text at all.
    pub fn is_empty(&self) -> (b: bool)
        ensures
            b == (self@.len() == 0),
    {
        self.text.as_str().is_empty()
    }
}

impl Clone for Guid {
    fn clone(&self) -> (g: Guid)
        ensures
            g@ == self@,
    {
        Guid { text: self.text.clone() }
    }
}

impl PartialEq for Guid {
    fn eq(&self, other: &Guid) -> (b: bool) {
        self.text == other.text
    }
}

impl PartialEqSpecImpl for Guid {
    open spec fn obeys_eq_spec() -> bool {
        true
    }

    open spec fn eq_spec(&self, other: &Guid) -> bool {
        self@ == other@
    }
}

impl Eq for Guid {}

impl Default for Guid {
    /// The guid without text.
    fn default() -> (g: Guid)
        ensures
            g@ == Seq::<char>::empty(),
    {
        Guid { text: String::new() }
    }
}

} // verus!
