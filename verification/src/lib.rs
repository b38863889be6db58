//! Three-way reconciliation of synced address records: the record model,
//! validation, field-level deltas and their merge.

pub mod address;
pub mod delta;
pub mod error;
pub mod guid;
pub mod laws;
pub mod local;
pub mod merge;
pub mod mirror;
pub mod rows;
pub mod status;
pub mod sync_data;
pub mod timestamp;
pub mod validation;

pub use address::{clone_text, same_text, string_or_default, text_of, Address, AddressView};
pub use delta::{
    apply_to, changed_target, changed_text, changed_time, delta_of, diff_target, diff_text,
    diff_time, empty_delta, replace_with, replaced, retarget, retargeted, time_of, use_increment,
    AddressDelta, AddressDeltaView,
};
pub use error::{ErrorKind, IdentityViolation, InvalidAddress, Slot};
pub use guid::Guid;
pub use local::LocalAddress;
pub use mirror::MirrorAddress;
pub use merge::{
    all_settled, collide, collisions_of, merge_field, merge_of, merged, noted, settled, DeltaField,
};
pub use rows::{record_of, text_or_empty, AddressRow, LocalRow, MirrorRow};
pub use status::SyncStatus;
pub use sync_data::{check_placement, placement, SyncAddressData};
pub use timestamp::{deserialize_timestamp, sanitized, ServerTimestamp};
pub use validation::{first_violation, is_valid};
