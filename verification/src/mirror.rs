//! A record as the server last had it.

use vstd::prelude::*;
use vstd::std_specs::convert::FromSpecImpl;
use crate::address::Address;
use crate::timestamp::ServerTimestamp;

verus! {

/// The mirror view of a record: the last server state that this client has
/// reconciled to, and so the common ancestor of a three-way merge.
#[derive(Debug)]
pub struct MirrorAddress {
    pub address: Address,
    /// Whether a local row shadows this one.
    pub is_overridden: bool,
    /// The server's time of the snapshot that this row reflects.
    pub server_modified: ServerTimestamp,
}

impl MirrorAddress {
    /// The identity of the record, as text.
    #[inline]
    pub fn guid_str(&self) -> (s: &str)
        ensures
            s@ == self.address@.guid,
    {
        self.address.guid_str()
    }
}

impl Clone for MirrorAddress {
    fn clone(&self) -> (copy: MirrorAddress)
        ensures
            copy.address@ == self.address@,
            copy.is_overridden == self.is_overridden,
            copy.server_modified == self.server_modified,
    {
        MirrorAddress {
            address: self.address.clone(),
            is_overridden: self.is_overridden,
            server_modified: self.server_modified,
        }
    }
}

impl AsRef<Address> for MirrorAddress {
    /// The record of the view.
    #[inline]
    fn as_ref(&self) -> (record: &Address)
        ensures
            *record == self.address,
    {
        &self.address
    }
}

impl AsMut<Address> for MirrorAddress {
    /// The record of the view, to be changed in place: nothing else of the
    /// view changes with it.
    #[inline]
    fn as_mut(&mut self) -> (record: &mut Address)
        ensures
            *record == old(self).address,
            final(self).address == *final(record),
            final(self).is_overridden == old(self).is_overridden,
            final(self).server_modified == old(self).server_modified,
    {
        &mut self.address
    }
}

impl From<MirrorAddress> for Address {
    /// The record of a mirror view.
    #[inline]
    fn from(mirror: MirrorAddress) -> (record: Address) {
        mirror.address
    }
}

impl FromSpecImpl<MirrorAddress> for Address {
    open spec fn obeys_from_spec() -> bool {
        true
    }

    open spec fn from_spec(mirror: MirrorAddress) -> Address {
        mirror.address
    }
}

impl From<Address> for MirrorAddress {
    /// The mirror view of a record that nothing shadows and that the server
    /// has not stamped yet.
    #[inline]
    fn from(address: Address) -> (mirror: MirrorAddress) {
        MirrorAddress { address, is_overridden: false, server_modified: ServerTimestamp(0) }
    }
}

impl FromSpecImpl<Address> for MirrorAddress {
    open spec fn obeys_from_spec() -> bool {
        true
    }

    open spec fn from_spec(address: Address) -> MirrorAddress {
        MirrorAddress { address, is_overridden: false, server_modified: ServerTimestamp(0) }
    }
}

} // verus!
