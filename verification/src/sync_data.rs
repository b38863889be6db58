//! The reconciliation context of one guid: what a three-way merge needs.

use vstd::prelude::*;
use crate::address::Address;
use crate::error::{ErrorKind, IdentityViolation, Slot};
use crate::guid::Guid;
use crate::local::LocalAddress;
use crate::mirror::MirrorAddress;
use crate::timestamp::ServerTimestamp;

verus! {

/// `serde_json::Error`, the error with which the body of a payload fails to
/// decode. Nothing is claimed of it: the core never looks inside, it only
/// hands the error on.
#[verifier::external_type_specification]
#[verifier::external_body]
pub struct ExDecodeError(serde_json::Error);

/// The local view, the mirror view and the inbound snapshot of one guid. It
/// is made for one sync pass and dropped after it.
#[derive(Debug)]
pub struct SyncAddressData {
    pub guid: Guid,
    pub local: Option<LocalAddress>,
    pub mirror: Option<MirrorAddress>,
    /// The record as the server sent it, where `None` is a deletion, and the
    /// server's time of its arrival.
    pub inbound: (Option<Address>, ServerTimestamp),
}

/// Whether a record may be placed into a slot of a context: the slot has to
/// be free, and the record has to carry the guid of the context. An occupied
/// slot is reported before a foreign guid.
pub open spec fn placement(
    occupied: bool,
    context: Seq<char>,
    record: Seq<char>,
    slot: Slot,
) -> Result<(), ErrorKind> {
    if occupied {
        Err(ErrorKind::IdentityIntegrity(IdentityViolation::SlotOccupied(slot)))
    } else if context != record {
        Err(ErrorKind::IdentityIntegrity(IdentityViolation::GuidMismatch(slot)))
    } else {
        Ok(())
    }
}

/// Decides whether a record with the guid `record` may be placed into
/// `slot` of a context with the guid `context`.
pub fn check_placement(
    occupied: bool,
    context: &Guid,
    record: &Guid,
    slot: Slot,
) -> (r: Result<(), ErrorKind>)
    ensures
        r == placement(occupied, context@, record@, slot),
{
    if occupied {
        Err(ErrorKind::IdentityIntegrity(IdentityViolation::SlotOccupied(slot)))
    } else if *context != *record {
        Err(ErrorKind::IdentityIntegrity(IdentityViolation::GuidMismatch(slot)))
    } else {
        Ok(())
    }
}

impl SyncAddressData {
    /// Every record of the context carries the guid of the context: the one
    /// in either slot, and the inbound one.
    pub open spec fn wf(&self) -> bool {
        &&& self.local matches Some(local) ==> local.address@.guid == self.guid@
        &&& self.mirror matches Some(mirror) ==> mirror.address@.guid == self.guid@
        &&& self.inbound.0 matches Some(record) ==> record@.guid == self.guid@
    }

    /// The identity that the context is about, as text.
    #[inline]
    pub fn guid_str(&self) -> (s: &str)
        ensures
            s@ == self.guid@,
    {
        self.guid.as_str()
    }

    /// The identity that the context is about.
    #[inline]
    pub fn guid(&self) -> (g: &Guid)
        ensures
            *g == self.guid,
    {
        &self.guid
    }

    /// The context for one inbound payload, with both slots free.
    ///
    /// `id` and `is_tombstone` come from the payload's envelope, `record` is
    /// the outcome of decoding its body, and `ts` is the server's time of
    /// the payload. A tombstone gives a context without inbound record,
    /// whatever its body decodes to. Any other payload gives its record, or
    /// fails with the error of the decoding, and with no other.
    ///
    /// A body that decodes has to carry the guid of its envelope: the
    /// context is about one guid.
    pub fn from_payload(
        id: Guid,
        is_tombstone: bool,
        record: Result<Address, serde_json::Error>,
        ts: ServerTimestamp,
    ) -> (r: Result<SyncAddressData, serde_json::Error>)
        requires
            record matches Ok(address) ==> address@.guid == id@,
        ensures
            is_tombstone ==> r == Ok::<SyncAddressData, serde_json::Error>(
                SyncAddressData { guid: id, local: None, mirror: None, inbound: (None, ts) },
            ),
            !is_tombstone ==> r == match record {
                Ok(address) => Ok::<SyncAddressData, serde_json::Error>(
                    SyncAddressData {
                        guid: id,
                        local: None,
                        mirror: None,
                        inbound: (Some(address), ts),
                    },
                ),
                Err(e) => Err(e),
            },
            r matches Ok(data) ==> data.wf(),
    {
        let address: Option<Address> = if is_tombstone {
            None
        } else {
            match record {
                Ok(address) => Some(address),
                Err(e) => {
                    return Err(e);
                },
            }
        };
        Ok(SyncAddressData { guid: id, local: None, mirror: None, inbound: (address, ts) })
    }

    /// Places the local view into its slot. The slot has to be free and the
    /// record has to carry the guid of the context: anything else is an
    /// identity violation, which is reported and leaves the context as it
    /// was.
    pub fn set_local(&mut self, record: LocalAddress) -> (r: Result<(), ErrorKind>)
        ensures
            r == placement(
                old(self).local is Some,
                old(self).guid@,
                record.address@.guid,
                Slot::Local,
            ),
            r is Ok ==> final(self).local == Some(record),
            r is Err ==> *final(self) == *old(self),
            final(self).guid == old(self).guid,
            final(self).mirror == old(self).mirror,
            final(self).inbound == old(self).inbound,
            old(self).wf() ==> final(self).wf(),
    {
        match check_placement(self.local.is_some(), &self.guid, &record.address.guid, Slot::Local) {
            Ok(()) => {
                self.local = Some(record);
                Ok(())
            },
            Err(e) => Err(e),
        }
    }

    /// Places the mirror view into its slot, under the conditions of
    /// `set_local`.
    pub fn set_mirror(&mut self, record: MirrorAddress) -> (r: Result<(), ErrorKind>)
        ensures
            r == placement(
                old(self).mirror is Some,
                old(self).guid@,
                record.address@.guid,
                Slot::Mirror,
            ),
            r is Ok ==> final(self).mirror == Some(record),
            r is Err ==> *final(self) == *old(self),
            final(self).guid == old(self).guid,
            final(self).local == old(self).local,
            final(self).inbound == old(self).inbound,
            old(self).wf() ==> final(self).wf(),
    {
        match check_placement(
            self.mirror.is_some(),
            &self.guid,
            &record.address.guid,
            Slot::Mirror,
        ) {
            Ok(()) => {
                self.mirror = Some(record);
                Ok(())
            },
            Err(e) => Err(e),
        }
    }
}

} // verus!
