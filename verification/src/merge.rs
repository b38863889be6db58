//! The merge of two deltas that were computed against one ancestor.
//!
//! A field that only one delta holds is taken as it is. A field that both
//! hold is a collision: the caller says which side is the newer one, and
//! that side's value is kept whole. The usage counter never collides: its
//! increments are added.

use vstd::prelude::*;
use crate::delta::{AddressDelta, AddressDeltaView};

verus! {

/// A field of a delta in which two deltas may collide.
#[derive(Clone, Copy, Debug, PartialEq, Eq, Hash, Structural)]
pub enum DeltaField {
    Hostname,
    Password,
    Username,
    HttpRealm,
    FormSubmitTarget,
    TimeCreated,
    TimeLastUsed,
    TimePasswordChanged,
    PasswordField,
    UsernameField,
}

impl DeltaField {
    /// The name of the field, as a record spells it.
    pub open spec fn label(self) -> Seq<char> {
        match self {
            DeltaField::Hostname => "hostname"@,
            DeltaField::Password => "password"@,
            DeltaField::Username => "username"@,
            DeltaField::HttpRealm => "http_realm"@,
            DeltaField::FormSubmitTarget => "form_submit_target"@,
            DeltaField::TimeCreated => "time_created"@,
            DeltaField::TimeLastUsed => "time_last_used"@,
            DeltaField::TimePasswordChanged => "time_password_changed"@,
            DeltaField::PasswordField => "password_field"@,
            DeltaField::UsernameField => "username_field"@,
        }
    }

    /// The name of the field, for the warning that reports a collision.
    pub fn name(self) -> (text: &'static str)
        ensures
            text@ == self.label(),
    {
        match self {
            DeltaField::Hostname => "hostname",
            DeltaField::Password => "password",
            DeltaField::Username => "username",
            DeltaField::HttpRealm => "http_realm",
            DeltaField::FormSubmitTarget => "form_submit_target",
            DeltaField::TimeCreated => "time_created",
            DeltaField::TimeLastUsed => "time_last_used",
            DeltaField::TimePasswordChanged => "time_password_changed",
            DeltaField::PasswordField => "password_field",
            DeltaField::UsernameField => "username_field",
        }
    }
}

/// Whether both sides hold a value for a field.
pub open spec fn collide<T>(a: Option<T>, b: Option<T>) -> bool {
    a is Some && b is Some
}

/// One field of a merged delta: the only value there is, or on a collision
/// the value of `b` if `prefer_b` and that of `a` if not.
pub open spec fn merged<T>(a: Option<T>, b: Option<T>, prefer_b: bool) -> Option<T> {
    if b is None {
        a
    } else if a is None {
        b
    } else if prefer_b {
        b
    } else {
        a
    }
}

/// Whether `kept` settles a collision of `a` and `b` by the flag alone: the
/// value of `b` if it is the newer side, and that of `a` if it is not.
pub open spec fn settled<T>(a: Option<T>, b: Option<T>, kept: Option<T>, b_is_newer: bool) -> bool {
    collide(a, b) ==> kept == if b_is_newer {
        b
    } else {
        a
    }
}

/// Whether `kept` settles by the flag every collision of the deltas `a` and
/// `b`.
pub open spec fn all_settled(
    a: AddressDeltaView,
    b: AddressDeltaView,
    kept: AddressDeltaView,
    b_is_newer: bool,
) -> bool {
    &&& settled(a.hostname, b.hostname, kept.hostname, b_is_newer)
    &&& settled(a.password, b.password, kept.password, b_is_newer)
    &&& settled(a.username, b.username, kept.username, b_is_newer)
    &&& settled(a.http_realm, b.http_realm, kept.http_realm, b_is_newer)
    &&& settled(a.form_submit_target, b.form_submit_target, kept.form_submit_target, b_is_newer)
    &&& settled(a.time_created, b.time_created, kept.time_created, b_is_newer)
    &&& settled(a.time_last_used, b.time_last_used, kept.time_last_used, b_is_newer)
    &&& settled(
        a.time_password_changed,
        b.time_password_changed,
        kept.time_password_changed,
        b_is_newer,
    )
    &&& settled(a.password_field, b.password_field, kept.password_field, b_is_newer)
    &&& settled(a.username_field, b.username_field, kept.username_field, b_is_newer)
}

/// The merge of the deltas `a` and `b`, where `b_is_newer` settles every
/// collision.
pub open spec fn merge_of(
    a: AddressDeltaView,
    b: AddressDeltaView,
    b_is_newer: bool,
) -> AddressDeltaView {
    AddressDeltaView {
        hostname: merged(a.hostname, b.hostname, b_is_newer),
        password: merged(a.password, b.password, b_is_newer),
        username: merged(a.username, b.username, b_is_newer),
        http_realm: merged(a.http_realm, b.http_realm, b_is_newer),
        form_submit_target: merged(a.form_submit_target, b.form_submit_target, b_is_newer),
        time_created: merged(a.time_created, b.time_created, b_is_newer),
        time_last_used: merged(a.time_last_used, b.time_last_used, b_is_newer),
        time_password_changed: merged(
            a.time_password_changed,
            b.time_password_changed,
            b_is_newer,
        ),
        password_field: merged(a.password_field, b.password_field, b_is_newer),
        username_field: merged(a.username_field, b.username_field, b_is_newer),
        times_used: a.times_used + b.times_used,
    }
}

/// The field, if both sides hold a value for it.
pub open spec fn noted<T>(a: Option<T>, b: Option<T>, field: DeltaField) -> Seq<DeltaField> {
    if collide(a, b) {
        seq![field]
    } else {
        Seq::empty()
    }
}

/// The fields in which `a` and `b` collide, in the order in which a merge
/// visits them.
pub open spec fn collisions_of(a: AddressDeltaView, b: AddressDeltaView) -> Seq<DeltaField> {
    noted(a.hostname, b.hostname, DeltaField::Hostname)
        + noted(a.password, b.password, DeltaField::Password)
        + noted(a.username, b.username, DeltaField::Username)
        + noted(a.http_realm, b.http_realm, DeltaField::HttpRealm)
        + noted(a.form_submit_target, b.form_submit_target, DeltaField::FormSubmitTarget)
        + noted(a.time_created, b.time_created, DeltaField::TimeCreated)
        + noted(a.time_last_used, b.time_last_used, DeltaField::TimeLastUsed)
        + noted(a.time_password_changed, b.time_password_changed, DeltaField::TimePasswordChanged)
        + noted(a.password_field, b.password_field, DeltaField::PasswordField)
        + noted(a.username_field, b.username_field, DeltaField::UsernameField)
}

/// One field of a merged delta.
pub fn merge_field<T>(a: Option<T>, b: Option<T>, prefer_b: bool) -> (kept: Option<T>)
    ensures
        kept == merged(a, b, prefer_b),
{
    match b {
        Some(value) => {
            if a.is_some() {
                if prefer_b {
                    Some(value)
                } else {
                    a
                }
            } else {
                Some(value)
            }
        },
        None => a,
    }
}

/// Adds `field` to `found` if both sides hold a value for it.
fn note_collision<T>(
    found: &mut Vec<DeltaField>,
    a: &Option<T>,
    b: &Option<T>,
    field: DeltaField,
)
    ensures
        final(found)@ == old(found)@ + noted(*a, *b, field),
{
    if a.is_some() && b.is_some() {
        found.push(field);
        assert(found@ =~= old(found)@ + seq![field]);
    } else {
        assert(found@ =~= old(found)@ + Seq::<DeltaField>::empty());
    }
}

impl AddressDelta {
    /// Merges this delta with `b`, a delta against the same ancestor. On a
    /// collision the value of `b` is kept if `b_is_newer`, and this delta's
    /// if not. The increments of the usage counter are added.
    ///
    /// The sum of the increments has to fit the counter's type.
    pub fn merge(self, b: AddressDelta, b_is_newer: bool) -> (result: AddressDelta)
        requires
            i64::MIN <= self.times_used + b.times_used <= i64::MAX,
        ensures
            result@ == merge_of(self@, b@, b_is_newer),
            all_settled(self@, b@, result@, b_is_newer),
            result.times_used == self.times_used + b.times_used,
    {
        AddressDelta {
            hostname: merge_field(self.hostname, b.hostname, b_is_newer),
            password: merge_field(self.password, b.password, b_is_newer),
            username: merge_field(self.username, b.username, b_is_newer),
            http_realm: merge_field(self.http_realm, b.http_realm, b_is_newer),
            form_submit_target: merge_field(
                self.form_submit_target,
                b.form_submit_target,
                b_is_newer,
            ),
            time_created: merge_field(self.time_created, b.time_created, b_is_newer),
            time_last_used: merge_field(self.time_last_used, b.time_last_used, b_is_newer),
            time_password_changed: merge_field(
                self.time_password_changed,
                b.time_password_changed,
                b_is_newer,
            ),
            password_field: merge_field(self.password_field, b.password_field, b_is_newer),
            username_field: merge_field(self.username_field, b.username_field, b_is_newer),
            times_used: self.times_used + b.times_used,
        }
    }

    /// The fields in which this delta and `b` collide, in the order in which
    /// `merge` visits them: one warning is due for each.
    pub fn collisions(&self, b: &AddressDelta) -> (found: Vec<DeltaField>)
        ensures
            found@ == collisions_of(self@, b@),
    {
        let mut found: Vec<DeltaField> = Vec::new();
        note_collision(&mut found, &self.hostname, &b.hostname, DeltaField::Hostname);
        note_collision(&mut found, &self.password, &b.password, DeltaField::Password);
        note_collision(&mut found, &self.username, &b.username, DeltaField::Username);
        note_collision(&mut found, &self.http_realm, &b.http_realm, DeltaField::HttpRealm);
        note_collision(
            &mut found,
            &self.form_submit_target,
            &b.form_submit_target,
            DeltaField::FormSubmitTarget,
        );
        note_collision(&mut found, &self.time_created, &b.time_created, DeltaField::TimeCreated);
        note_collision(
            &mut found,
            &self.time_last_used,
            &b.time_last_used,
            DeltaField::TimeLastUsed,
        );
        note_collision(
            &mut found,
            &self.time_password_changed,
            &b.time_password_changed,
            DeltaField::TimePasswordChanged,
        );
        note_collision(
            &mut found,
            &self.password_field,
            &b.password_field,
            DeltaField::PasswordField,
        );
        note_collision(
            &mut found,
            &self.username_field,
            &b.username_field,
            DeltaField::UsernameField,
        );
        found
    }
}

} // verus!
