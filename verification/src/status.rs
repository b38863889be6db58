//! Whether a local record is in step with the server.

use vstd::prelude::*;
use crate::error::ErrorKind;

verus! {

/// The sync state of a local record, stored as a small ordinal.
#[derive(Clone, Copy, Debug, PartialEq, Eq, PartialOrd, Ord, Hash, Structural)]
pub enum SyncStatus {
    /// The server holds this record as it stands locally.
    Synced,
    /// The record was changed locally after its last upload.
    Changed,
    /// The record was created locally and never uploaded.
    New,
}

impl SyncStatus {
    /// The ordinal under which the status is stored.
    pub open spec fn ordinal(self) -> u8 {
        match self {
            SyncStatus::Synced => 0,
            SyncStatus::Changed => 1,
            SyncStatus::New => 2,
        }
    }

    /// The status stored under `v`, if there is one.
    pub open spec fn of_ordinal(v: u8) -> Option<SyncStatus> {
        if v == 0 {
            Some(SyncStatus::Synced)
        } else if v == 1 {
            Some(SyncStatus::Changed)
        } else if v == 2 {
            Some(SyncStatus::New)
        } else {
            None
        }
    }

    /// Decodes a stored ordinal. An ordinal outside the known set is
    /// reported with its value.
    #[inline]
    pub fn from_u8(v: u8) -> (r: Result<SyncStatus, ErrorKind>)
        ensures
            r == match Self::of_ordinal(v) {
                Some(s) => Ok::<SyncStatus, ErrorKind>(s),
                None => Err(ErrorKind::BadSyncStatus(v)),
            },
    {
        match v {
            0 => Ok(SyncStatus::Synced),
            1 => Ok(SyncStatus::Changed),
            2 => Ok(SyncStatus::New),
            v => Err(ErrorKind::BadSyncStatus(v)),
        }
    }

    /// The ordinal under which the status is stored.
    #[inline]
    pub fn as_u8(self) -> (v: u8)
        ensures
            v == self.ordinal(),
            Self::of_ordinal(v) == Some(self),
    {
        match self {
            SyncStatus::Synced => 0,
            SyncStatus::Changed => 1,
            SyncStatus::New => 2,
        }
    }
}

} // verus!
