//! The canonical record and its mathematical model.

use vstd::prelude::*;
use vstd::std_specs::cmp::PartialEqSpecImpl;
use crate::guid::Guid;

verus! {

/// The model of a canonical record: texts as sequences of characters,
/// numbers as unbounded integers. Timestamps are milliseconds since the
/// epoch, where a value that is not positive stands for "unknown".
pub struct AddressView {
    pub guid: Seq<char>,
    pub hostname: Seq<char>,
    pub form_submit_target: Option<Seq<char>>,
    pub http_realm: Option<Seq<char>>,
    pub username: Seq<char>,
    pub password: Seq<char>,
    pub username_field: Seq<char>,
    pub password_field: Seq<char>,
    pub time_created: int,
    pub time_password_changed: int,
    pub time_last_used: int,
    pub times_used: int,
}

/// The model of an optional text.
pub open spec fn text_of(value: Option<String>) -> Option<Seq<char>> {
    match value {
        Some(s) => Some(s@),
        None => None,
    }
}

/// A canonical record. Construction checks nothing: a record that breaks the
/// invariant of the data model may exist for a while, and is turned away by
/// `check_valid` before it is stored or uploaded.
#[derive(Debug, Hash)]
pub struct Address {
    pub guid: Guid,
    pub hostname: String,
    pub form_submit_target: Option<String>,
    pub http_realm: Option<String>,
    pub username: String,
    pub password: String,
    pub username_field: String,
    pub password_field: String,
    pub time_created: i64,
    pub time_password_changed: i64,
    pub time_last_used: i64,
    pub times_used: i64,
}

impl View for Address {
    type V = AddressView;

    open spec fn view(&self) -> AddressView {
        AddressView {
            guid: self.guid@,
            hostname: self.hostname@,
            form_submit_target: text_of(self.form_submit_target),
            http_realm: text_of(self.http_realm),
            username: self.username@,
            password: self.password@,
            username_field: self.username_field@,
            password_field: self.password_field@,
            time_created: self.time_created as int,
            time_password_changed: self.time_password_changed as int,
            time_last_used: self.time_last_used as int,
            times_used: self.times_used as int,
        }
    }
}

/// A copy of an optional text.
pub fn clone_text(value: &Option<String>) -> (copy: Option<String>)
    ensures
        copy == *value,
{
    match value {
        Some(s) => Some(s.clone()),
        None => None,
    }
}

/// Whether two optional texts are both absent, or both present and equal
/// character by character.
pub fn same_text(a: &Option<String>, b: &Option<String>) -> (same: bool)
    ensures
        same == (text_of(*a) == text_of(*b)),
{
    match (a, b) {
        (Some(x), Some(y)) => *x == *y,
        (None, None) => true,
        _ => false,
    }
}

/// The text of a column that may be null: the empty text where it is.
pub fn string_or_default(value: Option<String>) -> (text: String)
    ensures
        text@ == match value {
            Some(s) => s@,
            None => Seq::<char>::empty(),
        },
{
    match value {
        Some(s) => s,
        None => String::new(),
    }
}

impl Address {
    /// The identity of the record.
    #[inline]
    pub fn guid(&self) -> (g: &Guid)
        ensures
            *g == self.guid,
    {
        &self.guid
    }

    /// The identity of the record, as text.
    #[inline]
    pub fn guid_str(&self) -> (s: &str)
        ensures
            s@ == self@.guid,
    {
        self.guid.as_str()
    }
}

impl Clone for Address {
    fn clone(&self) -> (copy: Address)
        ensures
            copy@ == self@,
    {
        Address {
            guid: self.guid.clone(),
            hostname: self.hostname.clone(),
            form_submit_target: clone_text(&self.form_submit_target),
            http_realm: clone_text(&self.http_realm),
            username: self.username.clone(),
            password: self.password.clone(),
            username_field: self.username_field.clone(),
            password_field: self.password_field.clone(),
            time_created: self.time_created,
            time_password_changed: self.time_password_changed,
            time_last_used: self.time_last_used,
            times_used: self.times_used,
        }
    }
}

impl PartialEq for Address {
    fn eq(&self, other: &Address) -> (same: bool) {
        self.guid == other.guid
            && self.hostname == other.hostname
            && same_text(&self.form_submit_target, &other.form_submit_target)
            && same_text(&self.http_realm, &other.http_realm)
            && self.username == other.username
            && self.password == other.password
            && self.username_field == other.username_field
            && self.password_field == other.password_field
            && self.time_created == other.time_created
            && self.time_password_changed == other.time_password_changed
            && self.time_last_used == other.time_last_used
            && self.times_used == other.times_used
    }
}

impl PartialEqSpecImpl for Address {
    open spec fn obeys_eq_spec() -> bool {
        true
    }

    open spec fn eq_spec(&self, other: &Address) -> bool {
        self@ == other@
    }
}

impl Default for Address {
    /// The record with every text empty, no target and every number zero.
    fn default() -> (record: Address)
        ensures
            record@ == (AddressView {
                guid: Seq::empty(),
                hostname: Seq::empty(),
                form_submit_target: None,
                http_realm: None,
                username: Seq::empty(),
                password: Seq::empty(),
                username_field: Seq::empty(),
                password_field: Seq::empty(),
                time_created: 0,
                time_password_changed: 0,
                time_last_used: 0,
                times_used: 0,
            }),
    {
        Address {
            guid: Guid::default(),
            hostname: String::new(),
            form_submit_target: None,
            http_realm: None,
            username: String::new(),
            password: String::new(),
            username_field: String::new(),
            password_field: String::new(),
            time_created: 0,
            time_password_changed: 0,
            time_last_used: 0,
            times_used: 0,
        }
    }
}

} // verus!
