//! Field-level differences between two snapshots of one record, and their
//! application.
//!
//! Every field of a record belongs to one of four classes, and each class
//! has its own rule for what a delta holds and how it is applied:
//!
//! * overwrite texts (`hostname`, `password`, `username`, `username_field`,
//!   `password_field`): the newer text whenever it differs;
//! * optional targets (`http_realm`, `form_submit_target`): the newer text
//!   whenever it differs, where the empty text means "clear the field";
//! * timestamps: the newer value whenever it is positive and differs;
//! * the usage counter: the increment, never negative, which is added on
//!   application.

use vstd::prelude::*;
use crate::address::{clone_text, same_text, text_of, Address, AddressView};

verus! {

/// The model of a delta: for each field either nothing, or the value that
/// the field is to take; for the usage counter the amount to add.
pub struct AddressDeltaView {
    pub hostname: Option<Seq<char>>,
    pub password: Option<Seq<char>>,
    pub username: Option<Seq<char>>,
    pub http_realm: Option<Seq<char>>,
    pub form_submit_target: Option<Seq<char>>,
    pub time_created: Option<int>,
    pub time_last_used: Option<int>,
    pub time_password_changed: Option<int>,
    pub password_field: Option<Seq<char>>,
    pub username_field: Option<Seq<char>>,
    pub times_used: int,
}

/// The model of an optional timestamp.
pub open spec fn time_of(value: Option<i64>) -> Option<int> {
    match value {
        Some(t) => Some(t as int),
        None => None,
    }
}

/// The delta that changes nothing.
pub open spec fn empty_delta() -> AddressDeltaView {
    AddressDeltaView {
        hostname: None,
        password: None,
        username: None,
        http_realm: None,
        form_submit_target: None,
        time_created: None,
        time_last_used: None,
        time_password_changed: None,
        password_field: None,
        username_field: None,
        times_used: 0,
    }
}

/// What a delta holds for an overwrite text: the newer text, if it differs.
pub open spec fn changed_text(newer: Seq<char>, older: Seq<char>) -> Option<Seq<char>> {
    if newer != older {
        Some(newer)
    } else {
        None
    }
}

/// What a delta holds for an optional target: if the newer value differs,
/// its text, or the empty text where the newer record has none.
pub open spec fn changed_target(
    newer: Option<Seq<char>>,
    older: Option<Seq<char>>,
) -> Option<Seq<char>> {
    if newer != older {
        Some(
            match newer {
                Some(text) => text,
                None => Seq::empty(),
            },
        )
    } else {
        None
    }
}

/// What a delta holds for a timestamp: the newer value, if it is positive
/// and differs. A timestamp that is not positive carries no information.
pub open spec fn changed_time(newer: int, older: int) -> Option<int> {
    if newer > 0 && newer != older {
        Some(newer)
    } else {
        None
    }
}

/// What a delta holds for the usage counter: the increment from the older
/// count to the newer one, if there is one. A newer count that is not above
/// the older one gives no increment: a delta never takes uses away.
pub open spec fn use_increment(newer: int, older: int) -> int {
    if newer > older {
        newer - older
    } else {
        0
    }
}

/// The delta that leads from `older` to `newer`.
pub open spec fn delta_of(newer: AddressView, older: AddressView) -> AddressDeltaView {
    AddressDeltaView {
        hostname: changed_text(newer.hostname, older.hostname),
        password: changed_text(newer.password, older.password),
        username: changed_text(newer.username, older.username),
        http_realm: changed_target(newer.http_realm, older.http_realm),
        form_submit_target: changed_target(newer.form_submit_target, older.form_submit_target),
        time_created: changed_time(newer.time_created, older.time_created),
        time_last_used: changed_time(newer.time_last_used, older.time_last_used),
        time_password_changed: changed_time(
            newer.time_password_changed,
            older.time_password_changed,
        ),
        password_field: changed_text(newer.password_field, older.password_field),
        username_field: changed_text(newer.username_field, older.username_field),
        times_used: use_increment(newer.times_used, older.times_used),
    }
}

/// A field after a change that replaces it outright.
pub open spec fn replaced<T>(current: T, change: Option<T>) -> T {
    match change {
        Some(value) => value,
        None => current,
    }
}

/// An optional target after a change: the empty text clears it.
pub open spec fn retargeted(
    current: Option<Seq<char>>,
    change: Option<Seq<char>>,
) -> Option<Seq<char>> {
    match change {
        Some(text) => if text.len() == 0 {
            None
        } else {
            Some(text)
        },
        None => current,
    }
}

/// The record that `delta` makes of `record`. The guid stays.
pub open spec fn apply_to(record: AddressView, delta: AddressDeltaView) -> AddressView {
    AddressView {
        guid: record.guid,
        hostname: replaced(record.hostname, delta.hostname),
        form_submit_target: retargeted(record.form_submit_target, delta.form_submit_target),
        http_realm: retargeted(record.http_realm, delta.http_realm),
        username: replaced(record.username, delta.username),
        password: replaced(record.password, delta.password),
        username_field: replaced(record.username_field, delta.username_field),
        password_field: replaced(record.password_field, delta.password_field),
        time_created: replaced(record.time_created, delta.time_created),
        time_password_changed: replaced(
            record.time_password_changed,
            delta.time_password_changed,
        ),
        time_last_used: replaced(record.time_last_used, delta.time_last_used),
        times_used: record.times_used + delta.times_used,
    }
}

/// A sparse difference between two snapshots of one record. It is made,
/// merged, applied once and dropped.
#[derive(Debug)]
pub struct AddressDelta {
    pub hostname: Option<String>,
    pub password: Option<String>,
    pub username: Option<String>,
    pub http_realm: Option<String>,
    pub form_submit_target: Option<String>,
    pub time_created: Option<i64>,
    pub time_last_used: Option<i64>,
    pub time_password_changed: Option<i64>,
    pub password_field: Option<String>,
    pub username_field: Option<String>,
    pub times_used: i64,
}

impl View for AddressDelta {
    type V = AddressDeltaView;

    open spec fn view(&self) -> AddressDeltaView {
        AddressDeltaView {
            hostname: text_of(self.hostname),
            password: text_of(self.password),
            username: text_of(self.username),
            http_realm: text_of(self.http_realm),
            form_submit_target: text_of(self.form_submit_target),
            time_created: time_of(self.time_created),
            time_last_used: time_of(self.time_last_used),
            time_password_changed: time_of(self.time_password_changed),
            password_field: text_of(self.password_field),
            username_field: text_of(self.username_field),
            times_used: self.times_used as int,
        }
    }
}

impl Default for AddressDelta {
    /// The delta that changes nothing.
    fn default() -> (delta: AddressDelta)
        ensures
            delta@ == empty_delta(),
    {
        AddressDelta {
            hostname: None,
            password: None,
            username: None,
            http_realm: None,
            form_submit_target: None,
            time_created: None,
            time_last_used: None,
            time_password_changed: None,
            password_field: None,
            username_field: None,
            times_used: 0,
        }
    }
}

impl Clone for AddressDelta {
    fn clone(&self) -> (copy: AddressDelta)
        ensures
            copy@ == self@,
    {
        AddressDelta {
            hostname: clone_text(&self.hostname),
            password: clone_text(&self.password),
            username: clone_text(&self.username),
            http_realm: clone_text(&self.http_realm),
            form_submit_target: clone_text(&self.form_submit_target),
            time_created: self.time_created,
            time_last_used: self.time_last_used,
            time_password_changed: self.time_password_changed,
            password_field: clone_text(&self.password_field),
            username_field: clone_text(&self.username_field),
            times_used: self.times_used,
        }
    }
}

/// The entry of a delta for an overwrite text.
pub fn diff_text(newer: &String, older: &String) -> (change: Option<String>)
    ensures
        text_of(change) == changed_text(newer@, older@),
{
    if *newer != *older {
        Some(newer.clone())
    } else {
        None
    }
}

/// The entry of a delta for an optional target.
pub fn diff_target(newer: &Option<String>, older: &Option<String>) -> (change: Option<String>)
    ensures
        text_of(change) == changed_target(text_of(*newer), text_of(*older)),
{
    if !same_text(newer, older) {
        match newer {
            Some(text) => Some(text.clone()),
            None => Some(String::new()),
        }
    } else {
        None
    }
}

/// The entry of a delta for a timestamp.
pub fn diff_time(newer: i64, older: i64) -> (change: Option<i64>)
    ensures
        time_of(change) == changed_time(newer as int, older as int),
{
    if newer > 0 && newer != older {
        Some(newer)
    } else {
        None
    }
}

/// A field set to the value of a change, or left as it is.
pub fn replace_with<T>(current: &mut T, change: Option<T>)
    ensures
        *final(current) == replaced(*old(current), change),
{
    match change {
        Some(value) => {
            *current = value;
        },
        None => {},
    }
}

/// An optional target set, cleared or left as it is.
pub fn retarget(current: &mut Option<String>, change: Option<String>)
    ensures
        text_of(*final(current)) == retargeted(text_of(*old(current)), text_of(change)),
{
    match change {
        Some(text) => {
            if text.as_str().is_empty() {
                *current = None;
            } else {
                *current = Some(text);
            }
        },
        None => {},
    }
}

impl Address {
    /// The delta that leads from `older` to this record. It holds no
    /// timestamp that is unknown in this record, its increment of the usage
    /// counter is never negative, and it can always be applied to `older`.
    ///
    /// The increment of the usage counter has to fit the counter's type.
    pub fn delta(&self, older: &Address) -> (delta: AddressDelta)
        requires
            self.times_used > older.times_used ==> self.times_used - older.times_used <= i64::MAX,
        ensures
            delta@ == delta_of(self@, older@),
            self.time_created <= 0 ==> delta.time_created is None,
            self.time_last_used <= 0 ==> delta.time_last_used is None,
            self.time_password_changed <= 0 ==> delta.time_password_changed is None,
            delta.times_used >= 0,
            i64::MIN <= older.times_used + delta.times_used <= i64::MAX,
    {
        let times_used: i64 = if self.times_used > older.times_used {
            self.times_used - older.times_used
        } else {
            0
        };
        AddressDelta {
            hostname: diff_text(&self.hostname, &older.hostname),
            password: diff_text(&self.password, &older.password),
            username: diff_text(&self.username, &older.username),
            http_realm: diff_target(&self.http_realm, &older.http_realm),
            form_submit_target: diff_target(&self.form_submit_target, &older.form_submit_target),
            time_created: diff_time(self.time_created, older.time_created),
            time_last_used: diff_time(self.time_last_used, older.time_last_used),
            time_password_changed: diff_time(
                self.time_password_changed,
                older.time_password_changed,
            ),
            password_field: diff_text(&self.password_field, &older.password_field),
            username_field: diff_text(&self.username_field, &older.username_field),
            times_used,
        }
    }

    /// Applies `delta` to this record: texts and timestamps that the delta
    /// holds replace the record's, an empty target clears the record's, and
    /// the usage counter grows by the delta's increment. A delta is applied
    /// to a record at most once: a second application counts the uses twice.
    ///
    /// The sum of the usage counter has to fit the counter's type.
    pub fn apply_delta(&mut self, delta: AddressDelta)
        requires
            i64::MIN <= old(self).times_used + delta.times_used <= i64::MAX,
        ensures
            final(self)@ == apply_to(old(self)@, delta@),
    {
        let AddressDelta {
            hostname,
            password,
            username,
            http_realm,
            form_submit_target,
            time_created,
            time_last_used,
            time_password_changed,
            password_field,
            username_field,
            times_used,
        } = delta;
        replace_with(&mut self.hostname, hostname);
        replace_with(&mut self.password, password);
        replace_with(&mut self.username, username);
        replace_with(&mut self.time_created, time_created);
        replace_with(&mut self.time_last_used, time_last_used);
        replace_with(&mut self.time_password_changed, time_password_changed);
        replace_with(&mut self.password_field, password_field);
        replace_with(&mut self.username_field, username_field);
        retarget(&mut self.http_realm, http_realm);
        retarget(&mut self.form_submit_target, form_submit_target);
        self.times_used = self.times_used + times_used;
    }
}

} // verus!
