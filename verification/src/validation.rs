//! The invariant of the data model, as a check on a record.

use vstd::prelude::*;
use crate::address::{Address, AddressView};
use crate::error::{ErrorKind, InvalidAddress};

verus! {

/// The invariant of the data model: a hostname, a password, and exactly one
/// of the two targets.
pub open spec fn is_valid(record: AddressView) -> bool {
    &&& record.hostname.len() > 0
    &&& record.password.len() > 0
    &&& (record.form_submit_target is Some) != (record.http_realm is Some)
}

/// The first breach of the invariant in `record`, in this order: no
/// hostname, no password, both targets, no target.
pub open spec fn first_violation(record: AddressView) -> Option<InvalidAddress> {
    if record.hostname.len() == 0 {
        Some(InvalidAddress::EmptyHostname)
    } else if record.password.len() == 0 {
        Some(InvalidAddress::EmptyPassword)
    } else if record.form_submit_target is Some && record.http_realm is Some {
        Some(InvalidAddress::BothTargets)
    } else if record.form_submit_target is None && record.http_realm is None {
        Some(InvalidAddress::NoTarget)
    } else {
        None
    }
}

impl Address {
    /// Checks the record against the invariant of the data model and reports
    /// the first breach. To be run on every record just before it is stored
    /// or queued for upload.
    pub fn check_valid(&self) -> (r: Result<(), ErrorKind>)
        ensures
            r == match first_violation(self@) {
                Some(breach) => Err::<(), ErrorKind>(ErrorKind::InvalidAddress(breach)),
                None => Ok(()),
            },
            r is Ok <==> is_valid(self@),
    {
        if self.hostname.as_str().is_empty() {
            return Err(ErrorKind::InvalidAddress(InvalidAddress::EmptyHostname));
        }
        if self.password.as_str().is_empty() {
            return Err(ErrorKind::InvalidAddress(InvalidAddress::EmptyPassword));
        }
        if self.form_submit_target.is_some() && self.http_realm.is_some() {
            return Err(ErrorKind::InvalidAddress(InvalidAddress::BothTargets));
        }
        if self.form_submit_target.is_none() && self.http_realm.is_none() {
            return Err(ErrorKind::InvalidAddress(InvalidAddress::NoTarget));
        }
        Ok(())
    }
}

} // verus!
