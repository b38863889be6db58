//! The failures that the record core reports.

use vstd::prelude::*;

verus! {

/// Why a record may not be persisted or uploaded.
#[derive(Clone, Copy, Debug, PartialEq, Eq, Hash, Structural)]
pub enum InvalidAddress {
    /// The hostname is empty.
    EmptyHostname,
    /// The password is empty.
    EmptyPassword,
    /// Both a form submit target and an HTTP realm are present.
    BothTargets,
    /// Neither a form submit target nor an HTTP realm is present.
    NoTarget,
}

/// One of the two record slots of a reconciliation context.
#[derive(Clone, Copy, Debug, PartialEq, Eq, Hash, Structural)]
pub enum Slot {
    /// The slot of the local view.
    Local,
    /// The slot of the mirror view.
    Mirror,
}

/// A breach of record identity inside a reconciliation context. It shows a
/// defect in the caller's dispatch by guid: processing of that guid must stop.
#[derive(Clone, Copy, Debug, PartialEq, Eq, Hash, Structural)]
pub enum IdentityViolation {
    /// The slot already held a record.
    SlotOccupied(Slot),
    /// The record offered for the slot carries another guid than the context.
    GuidMismatch(Slot),
}

/// Every failure of the record core.
#[derive(Clone, Copy, Debug, PartialEq, Eq, Hash, Structural)]
pub enum ErrorKind {
    /// A record broke an invariant of the data model.
    InvalidAddress(InvalidAddress),
    /// A stored sync status held an ordinal outside the known set.
    BadSyncStatus(u8),
    /// A reconciliation context was handed a record that it must not take.
    IdentityIntegrity(IdentityViolation),
}

} // verus!
