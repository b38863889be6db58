//! A record as this client holds it.

use vstd::prelude::*;
use vstd::std_specs::convert::FromSpecImpl;
use crate::address::Address;
use crate::status::SyncStatus;

verus! {

/// The local view of a record.
#[derive(Debug)]
pub struct LocalAddress {
    pub address: Address,
    pub sync_status: SyncStatus,
    /// Whether the record was deleted locally and the deletion has still to
    /// reach the server.
    pub is_deleted: bool,
    /// The wall-clock time of the last local write, in milliseconds since
    /// the epoch.
    pub local_modified: i64,
}

impl LocalAddress {
    /// The identity of the record, as text.
    #[inline]
    pub fn guid_str(&self) -> (s: &str)
        ensures
            s@ == self.address@.guid,
    {
        self.address.guid_str()
    }
}

impl Clone for LocalAddress {
    fn clone(&self) -> (copy: LocalAddress)
        ensures
            copy.address@ == self.address@,
            copy.sync_status == self.sync_status,
            copy.is_deleted == self.is_deleted,
            copy.local_modified == self.local_modified,
    {
        LocalAddress {
            address: self.address.clone(),
            sync_status: self.sync_status,
            is_deleted: self.is_deleted,
            local_modified: self.local_modified,
        }
    }
}

impl AsRef<Address> for LocalAddress {
    /// The record of the view.
    #[inline]
    fn as_ref(&self) -> (record: &Address)
        ensures
            *record == self.address,
    {
        &self.address
    }
}

impl AsMut<Address> for LocalAddress {
    /// The record of the view, to be changed in place: nothing else of the
    /// view changes with it.
    #[inline]
    fn as_mut(&mut self) -> (record: &mut Address)
        ensures
            *record == old(self).address,
            final(self).address == *final(record),
            final(self).sync_status == old(self).sync_status,
            final(self).is_deleted == old(self).is_deleted,
            final(self).local_modified == old(self).local_modified,
    {
        &mut self.address
    }
}

impl From<LocalAddress> for Address {
    /// The record of a local view.
    #[inline]
    fn from(local: LocalAddress) -> (record: Address) {
        local.address
    }
}

impl FromSpecImpl<LocalAddress> for Address {
    open spec fn obeys_from_spec() -> bool {
        true
    }

    open spec fn from_spec(local: LocalAddress) -> Address {
        local.address
    }
}

impl From<Address> for LocalAddress {
    /// The local view of a record that was just created: new, not deleted,
    /// and written at the epoch.
    #[inline]
    fn from(address: Address) -> (local: LocalAddress) {
        LocalAddress {
            address,
            sync_status: SyncStatus::New,
            is_deleted: false,
            local_modified: 0,
        }
    }
}

impl FromSpecImpl<Address> for LocalAddress {
    open spec fn obeys_from_spec() -> bool {
        true
    }

    open spec fn from_spec(address: Address) -> LocalAddress {
        LocalAddress {
            address,
            sync_status: SyncStatus::New,
            is_deleted: false,
            local_modified: 0,
        }
    }
}

} // verus!
