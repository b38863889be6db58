//! What holds of deltas and merges whatever the records are.
//!
//! The laws are stated over the models of records and deltas, the terms in
//! which `Address::delta`, `Address::apply_delta` and `AddressDelta::merge`
//! state their results.

use vstd::prelude::*;
use crate::address::Address;
use crate::delta::{apply_to, changed_target, delta_of, empty_delta, retargeted, AddressDelta};
use crate::merge::{all_settled, collide, collisions_of, merge_of};

verus! {

/// Whether an optional target that a delta takes from `older` to `newer`
/// arrives as `newer` has it. It does not where `newer` holds the empty text
/// and `older` holds anything else: the delta then carries the empty text,
/// and the empty text clears the field.
pub open spec fn target_survives(newer: Option<Seq<char>>, older: Option<Seq<char>>) -> bool {
    newer == Some(Seq::<char>::empty()) ==> older == newer
}

/// A record differs in nothing from itself: the delta holds no field and no
/// increment of the usage counter, and applying it changes nothing.
pub proof fn lemma_delta_of_self(r: Address)
    ensures
        delta_of(r@, r@) == empty_delta(),
        delta_of(r@, r@).times_used == 0,
        apply_to(r@, delta_of(r@, r@)) == r@,
{
}

/// Applying to `b` the delta that leads from `b` to `a` gives the fields of
/// `a`:
///
/// * every overwrite text, always;
/// * an optional target, unless `a` holds it as the empty text and `b` does
///   not, in which case the field is cleared;
/// * a timestamp, where `a`'s value is positive; where it is not, the value
///   of `b` stays;
/// * the usage counter, where `a`'s count is not below `b`'s; where it is,
///   the count of `b` stays, so the counter holds the larger of the two.
///
/// With every one of these conditions met, the result is `a` itself.
pub proof fn lemma_apply_delta_restores(a: Address, b: Address)
    requires
        a@.guid == b@.guid,
    ensures
        ({
            let r = apply_to(b@, delta_of(a@, b@));
            &&& r.guid == a@.guid
            &&& r.hostname == a@.hostname
            &&& r.password == a@.password
            &&& r.username == a@.username
            &&& r.username_field == a@.username_field
            &&& r.password_field == a@.password_field
            &&& target_survives(a@.http_realm, b@.http_realm) ==> r.http_realm == a@.http_realm
            &&& !target_survives(a@.http_realm, b@.http_realm) ==> r.http_realm is None
            &&& target_survives(a@.form_submit_target, b@.form_submit_target)
                ==> r.form_submit_target == a@.form_submit_target
            &&& !target_survives(a@.form_submit_target, b@.form_submit_target)
                ==> r.form_submit_target is None
            &&& r.time_created == if a@.time_created > 0 {
                a@.time_created
            } else {
                b@.time_created
            }
            &&& r.time_last_used == if a@.time_last_used > 0 {
                a@.time_last_used
            } else {
                b@.time_last_used
            }
            &&& r.time_password_changed == if a@.time_password_changed > 0 {
                a@.time_password_changed
            } else {
                b@.time_password_changed
            }
            &&& r.times_used == if a@.times_used >= b@.times_used {
                a@.times_used
            } else {
                b@.times_used
            }
            &&& (target_survives(a@.http_realm, b@.http_realm) && target_survives(
                a@.form_submit_target,
                b@.form_submit_target,
            ) && a@.time_created > 0 && a@.time_last_used > 0 && a@.time_password_changed > 0
                && a@.times_used >= b@.times_used) ==> r == a@
        }),
{
    lemma_target_restored(a@.http_realm, b@.http_realm);
    lemma_target_restored(a@.form_submit_target, b@.form_submit_target);
}

/// The round trip of one optional target through a delta.
proof fn lemma_target_restored(newer: Option<Seq<char>>, older: Option<Seq<char>>)
    ensures
        target_survives(newer, older) ==> retargeted(older, changed_target(newer, older)) == newer,
        !target_survives(newer, older) ==> retargeted(older, changed_target(newer, older)) is None,
{
    if let Some(text) = newer {
        if text.len() == 0 {
            assert(text =~= Seq::<char>::empty());
        }
    }
}

/// A timestamp of the newer record that is zero or negative never enters a
/// delta, so it never overwrites the older record's.
pub proof fn lemma_unknown_time_is_omitted(a: Address, b: Address)
    ensures
        a@.time_created <= 0 ==> delta_of(a@, b@).time_created is None,
        a@.time_last_used <= 0 ==> delta_of(a@, b@).time_last_used is None,
        a@.time_password_changed <= 0 ==> delta_of(a@, b@).time_password_changed is None,
        a@.time_created <= 0 ==> apply_to(b@, delta_of(a@, b@)).time_created == b@.time_created,
        a@.time_last_used <= 0 ==> apply_to(b@, delta_of(a@, b@)).time_last_used
            == b@.time_last_used,
        a@.time_password_changed <= 0 ==> apply_to(b@, delta_of(a@, b@)).time_password_changed
            == b@.time_password_changed,
{
}

/// A delta never takes uses away: its increment is not negative, and the
/// record that it is applied to keeps at least the uses that it had.
pub proof fn lemma_uses_never_go_down(a: Address, b: Address)
    ensures
        delta_of(a@, b@).times_used >= 0,
        a@.times_used <= b@.times_used ==> delta_of(a@, b@).times_used == 0,
        a@.times_used > b@.times_used ==> delta_of(a@, b@).times_used == a@.times_used
            - b@.times_used,
        apply_to(b@, delta_of(a@, b@)).times_used >= b@.times_used,
{
}

/// The usage counter is additive under merge, whichever side is the newer.
pub proof fn lemma_merge_adds_uses(d1: AddressDelta, d2: AddressDelta, b_is_newer: bool)
    ensures
        merge_of(d1@, d2@, b_is_newer).times_used == d1@.times_used + d2@.times_used,
        merge_of(d1@, d2@, true).times_used == merge_of(d1@, d2@, false).times_used,
        merge_of(d1@, d2@, b_is_newer).times_used == merge_of(d2@, d1@, b_is_newer).times_used,
{
}

/// A collision is settled by the flag alone: in every field that both
/// deltas hold, the merge keeps the second delta's value if the second is
/// the newer, and the first delta's if it is not.
pub proof fn lemma_merge_tie_break(d1: AddressDelta, d2: AddressDelta)
    ensures
        all_settled(d1@, d2@, merge_of(d1@, d2@, true), true),
        all_settled(d1@, d2@, merge_of(d1@, d2@, false), false),
        ({
            let newer = merge_of(d1@, d2@, true);
            let older = merge_of(d1@, d2@, false);
            &&& collide(d1@.hostname, d2@.hostname) ==> newer.hostname == d2@.hostname
                && older.hostname == d1@.hostname
            &&& collide(d1@.password, d2@.password) ==> newer.password == d2@.password
                && older.password == d1@.password
            &&& collide(d1@.username, d2@.username) ==> newer.username == d2@.username
                && older.username == d1@.username
            &&& collide(d1@.http_realm, d2@.http_realm) ==> newer.http_realm == d2@.http_realm
                && older.http_realm == d1@.http_realm
            &&& collide(d1@.form_submit_target, d2@.form_submit_target)
                ==> newer.form_submit_target == d2@.form_submit_target
                && older.form_submit_target == d1@.form_submit_target
            &&& collide(d1@.time_created, d2@.time_created) ==> newer.time_created
                == d2@.time_created && older.time_created == d1@.time_created
            &&& collide(d1@.time_last_used, d2@.time_last_used) ==> newer.time_last_used
                == d2@.time_last_used && older.time_last_used == d1@.time_last_used
            &&& collide(d1@.time_password_changed, d2@.time_password_changed)
                ==> newer.time_password_changed == d2@.time_password_changed
                && older.time_password_changed == d1@.time_password_changed
            &&& collide(d1@.password_field, d2@.password_field) ==> newer.password_field
                == d2@.password_field && older.password_field == d1@.password_field
            &&& collide(d1@.username_field, d2@.username_field) ==> newer.username_field
                == d2@.username_field && older.username_field == d1@.username_field
        }),
{
}

/// A field that only one of two deltas holds is taken as it is, whichever
/// side is the newer.
pub proof fn lemma_merge_takes_the_only_value(
    d1: AddressDelta,
    d2: AddressDelta,
    b_is_newer: bool,
)
    ensures
        merge_of(d1@, empty_delta(), b_is_newer) == d1@,
        merge_of(empty_delta(), d2@, b_is_newer) == d2@,
        collisions_of(d1@, d2@).len() == 0 ==> merge_of(d1@, d2@, true) == merge_of(d1@, d2@, false),
{
}

} // verus!
