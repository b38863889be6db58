//! Rows of the local and the mirror table, as plain column values, and the
//! records that they hold.

use vstd::prelude::*;
use crate::address::{string_or_default, text_of, Address, AddressView};
use crate::error::ErrorKind;
use crate::guid::Guid;
use crate::local::LocalAddress;
use crate::mirror::MirrorAddress;
use crate::status::SyncStatus;
use crate::timestamp::ServerTimestamp;

verus! {

/// The columns of a record. A column that may be null is optional.
#[derive(Debug)]
pub struct AddressRow {
    pub guid: String,
    pub password: String,
    pub username: Option<String>,
    pub hostname: String,
    pub http_realm: Option<String>,
    pub form_submit_target: Option<String>,
    pub username_field: Option<String>,
    pub password_field: Option<String>,
    pub time_created: i64,
    pub time_last_used: Option<i64>,
    pub time_password_changed: i64,
    pub times_used: i64,
}

/// The columns of a row of the mirror table.
#[derive(Debug)]
pub struct MirrorRow {
    pub address: AddressRow,
    pub is_overridden: bool,
    pub server_modified: i64,
}

/// The columns of a row of the local table.
#[derive(Debug)]
pub struct LocalRow {
    pub address: AddressRow,
    pub sync_status: u8,
    pub is_deleted: bool,
    pub local_modified: i64,
}

/// The text of a column that may be null.
pub open spec fn text_or_empty(value: Option<Seq<char>>) -> Seq<char> {
    match value {
        Some(text) => text,
        None => Seq::empty(),
    }
}

/// The record that a row holds: a null text is the empty text, a null time
/// of last use is unknown, and the two targets stay as the row has them.
pub open spec fn record_of(row: AddressRow) -> AddressView {
    AddressView {
        guid: row.guid@,
        hostname: row.hostname@,
        form_submit_target: text_of(row.form_submit_target),
        http_realm: text_of(row.http_realm),
        username: text_or_empty(text_of(row.username)),
        password: row.password@,
        username_field: text_or_empty(text_of(row.username_field)),
        password_field: text_or_empty(text_of(row.password_field)),
        time_created: row.time_created as int,
        time_password_changed: row.time_password_changed as int,
        time_last_used: match row.time_last_used {
            Some(millis) => millis as int,
            None => 0,
        },
        times_used: row.times_used as int,
    }
}

impl Address {
    /// The record that a row holds. Nothing is checked: a row may hold a
    /// record that `check_valid` turns away.
    pub fn from_row(row: AddressRow) -> (record: Address)
        ensures
            record@ == record_of(row),
    {
        Address {
            guid: Guid::from_string(row.guid),
            password: row.password,
            username: string_or_default(row.username),
            hostname: row.hostname,
            http_realm: row.http_realm,
            form_submit_target: row.form_submit_target,
            username_field: string_or_default(row.username_field),
            password_field: string_or_default(row.password_field),
            time_created: row.time_created,
            time_last_used: match row.time_last_used {
                Some(millis) => millis,
                None => 0,
            },
            time_password_changed: row.time_password_changed,
            times_used: row.times_used,
        }
    }
}

impl MirrorAddress {
    /// The mirror view that a row of the mirror table holds.
    pub fn from_row(row: MirrorRow) -> (mirror: MirrorAddress)
        ensures
            mirror.address@ == record_of(row.address),
            mirror.is_overridden == row.is_overridden,
            mirror.server_modified == ServerTimestamp(row.server_modified),
    {
        MirrorAddress {
            address: Address::from_row(row.address),
            is_overridden: row.is_overridden,
            server_modified: ServerTimestamp(row.server_modified),
        }
    }
}

impl LocalAddress {
    /// The local view that a row of the local table holds. A sync status
    /// outside the known set fails the row, and nothing else does.
    pub fn from_row(row: LocalRow) -> (r: Result<LocalAddress, ErrorKind>)
        ensures
            match SyncStatus::of_ordinal(row.sync_status) {
                Some(status) => {
                    &&& r matches Ok(local)
                    &&& local.address@ == record_of(row.address)
                    &&& local.sync_status == status
                    &&& local.is_deleted == row.is_deleted
                    &&& local.local_modified == row.local_modified
                },
                None => r == Err::<LocalAddress, ErrorKind>(
                    ErrorKind::BadSyncStatus(row.sync_status),
                ),
            },
    {
        let address = Address::from_row(row.address);
        match SyncStatus::from_u8(row.sync_status) {
            Ok(sync_status) => Ok(
                LocalAddress {
                    address,
                    sync_status,
                    is_deleted: row.is_deleted,
                    local_modified: row.local_modified,
                },
            ),
            Err(e) => Err(e),
        }
    }
}

} // verus!
