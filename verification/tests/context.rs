use addresses::{
    check_placement, Address, DeltaField, ErrorKind, Guid, IdentityViolation, LocalAddress,
    MirrorAddress, ServerTimestamp, Slot, SyncAddressData, SyncStatus,
};

fn record(guid: &str) -> Address {
    Address {
        guid: Guid::new(guid),
        hostname: "https://www.example.com".to_string(),
        form_submit_target: Some("https://www.example.com/submit".to_string()),
        username: "test".to_string(),
        password: "test".to_string(),
        time_created: 1000,
        time_password_changed: 1000,
        time_last_used: 1000,
        times_used: 1,
        ..Address::default()
    }
}

fn context(guid: &str) -> SyncAddressData {
    SyncAddressData::from_payload(Guid::new(guid), false, Ok(record(guid)), ServerTimestamp(5000))
        .unwrap()
}

fn violation(kind: IdentityViolation) -> Result<(), ErrorKind> {
    Err(ErrorKind::IdentityIntegrity(kind))
}

#[test]
fn local_view_with_another_guid_is_an_identity_violation() {
    let mut data = context("aaaaaaaaaaaa");
    let outcome = data.set_local(LocalAddress::from(record("bbbbbbbbbbbb")));
    assert_eq!(outcome, violation(IdentityViolation::GuidMismatch(Slot::Local)));
    assert_eq!(data.guid_str(), "aaaaaaaaaaaa");
    assert!(data.local.is_none());
    assert!(data.mirror.is_none());
    assert_eq!(data.inbound.0, Some(record("aaaaaaaaaaaa")));
    assert_eq!(data.inbound.1, ServerTimestamp(5000));
}

#[test]
fn mirror_view_with_another_guid_is_an_identity_violation() {
    let mut data = context("aaaaaaaaaaaa");
    let outcome = data.set_mirror(MirrorAddress::from(record("bbbbbbbbbbbb")));
    assert_eq!(outcome, violation(IdentityViolation::GuidMismatch(Slot::Mirror)));
    assert_eq!(data.guid_str(), "aaaaaaaaaaaa");
    assert!(data.local.is_none());
    assert!(data.mirror.is_none());
    assert_eq!(data.inbound.0, Some(record("aaaaaaaaaaaa")));
}

#[test]
fn a_free_slot_takes_a_record_with_the_guid_of_the_context() {
    let mut data = context("aaaaaaaaaaaa");
    let local = LocalAddress {
        address: Address { username: "local".to_string(), ..record("aaaaaaaaaaaa") },
        sync_status: SyncStatus::Changed,
        is_deleted: true,
        local_modified: 777,
    };
    assert_eq!(data.set_local(local), Ok(()));
    let held = data.local.as_ref().unwrap();
    assert_eq!(held.address.username, "local");
    assert_eq!(held.sync_status, SyncStatus::Changed);
    assert!(held.is_deleted);
    assert_eq!(held.local_modified, 777);
    assert!(data.mirror.is_none());

    let mirror = MirrorAddress {
        address: Address { username: "mirror".to_string(), ..record("aaaaaaaaaaaa") },
        is_overridden: true,
        server_modified: ServerTimestamp(4000),
    };
    assert_eq!(data.set_mirror(mirror), Ok(()));
    let held = data.mirror.as_ref().unwrap();
    assert_eq!(held.address.username, "mirror");
    assert!(held.is_overridden);
    assert_eq!(held.server_modified, ServerTimestamp(4000));
    assert_eq!(data.local.as_ref().unwrap().address.username, "local");
    assert_eq!(data.guid_str(), "aaaaaaaaaaaa");
    assert_eq!(data.inbound.1, ServerTimestamp(5000));
}

#[test]
fn an_occupied_local_slot_is_an_identity_violation() {
    let mut data = context("aaaaaaaaaaaa");
    let first = Address { username: "first".to_string(), ..record("aaaaaaaaaaaa") };
    assert_eq!(data.set_local(LocalAddress::from(first)), Ok(()));
    let second = Address { username: "second".to_string(), ..record("aaaaaaaaaaaa") };
    assert_eq!(
        data.set_local(LocalAddress::from(second)),
        violation(IdentityViolation::SlotOccupied(Slot::Local))
    );
    assert_eq!(data.local.as_ref().unwrap().address.username, "first");
    assert!(data.mirror.is_none());
}

#[test]
fn an_occupied_mirror_slot_is_an_identity_violation() {
    let mut data = context("aaaaaaaaaaaa");
    let first = Address { username: "first".to_string(), ..record("aaaaaaaaaaaa") };
    assert_eq!(data.set_mirror(MirrorAddress::from(first)), Ok(()));
    let second = Address { username: "second".to_string(), ..record("aaaaaaaaaaaa") };
    assert_eq!(
        data.set_mirror(MirrorAddress::from(second)),
        violation(IdentityViolation::SlotOccupied(Slot::Mirror))
    );
    assert_eq!(data.mirror.as_ref().unwrap().address.username, "first");
    assert!(data.local.is_none());
}

#[test]
fn an_occupied_slot_is_reported_before_a_foreign_guid() {
    let mut data = context("aaaaaaaaaaaa");
    assert_eq!(data.set_local(LocalAddress::from(record("aaaaaaaaaaaa"))), Ok(()));
    assert_eq!(
        data.set_local(LocalAddress::from(record("bbbbbbbbbbbb"))),
        violation(IdentityViolation::SlotOccupied(Slot::Local))
    );
    assert_eq!(data.local.as_ref().unwrap().guid_str(), "aaaaaaaaaaaa");
}

#[test]
fn placement_by_value() {
    let a = Guid::new("aaaaaaaaaaaa");
    let b = Guid::new("bbbbbbbbbbbb");
    assert_eq!(check_placement(false, &a, &a, Slot::Local), Ok(()));
    assert_eq!(check_placement(false, &a, &a.clone(), Slot::Mirror), Ok(()));
    assert_eq!(
        check_placement(false, &a, &b, Slot::Mirror),
        violation(IdentityViolation::GuidMismatch(Slot::Mirror))
    );
    assert_eq!(
        check_placement(true, &a, &a, Slot::Local),
        violation(IdentityViolation::SlotOccupied(Slot::Local))
    );
    assert_eq!(
        check_placement(true, &a, &b, Slot::Mirror),
        violation(IdentityViolation::SlotOccupied(Slot::Mirror))
    );
    assert_eq!(
        check_placement(false, &a, &Guid::new("aaaaaaaaaaa"), Slot::Local),
        violation(IdentityViolation::GuidMismatch(Slot::Local))
    );
}

#[test]
fn three_way_merge_keeps_the_edits_of_both_sides() {
    let mirror = record("aaaaaaaaaaaa");
    let local = Address {
        username: "local user".to_string(),
        username_field: "user".to_string(),
        time_last_used: 2000,
        times_used: 3,
        ..record("aaaaaaaaaaaa")
    };
    let inbound = Address {
        password: "server password".to_string(),
        username_field: "login".to_string(),
        time_password_changed: 3000,
        times_used: 5,
        ..record("aaaaaaaaaaaa")
    };

    let mut data = SyncAddressData::from_payload(
        Guid::new("aaaaaaaaaaaa"),
        false,
        Ok(inbound),
        ServerTimestamp(5000),
    )
    .unwrap();
    assert_eq!(data.set_local(LocalAddress::from(local)), Ok(()));
    assert_eq!(data.set_mirror(MirrorAddress::from(mirror)), Ok(()));

    let ancestor: Address = data.mirror.unwrap().into();
    let local_delta = data.local.unwrap().address.delta(&ancestor);
    let inbound_delta = data.inbound.0.unwrap().delta(&ancestor);
    assert_eq!(local_delta.collisions(&inbound_delta), vec![DeltaField::UsernameField]);

    let merged = local_delta.merge(inbound_delta, true);
    let mut result = ancestor.clone();
    result.apply_delta(merged);

    assert_eq!(result.username, "local user");
    assert_eq!(result.password, "server password");
    assert_eq!(result.username_field, "login");
    assert_eq!(result.time_last_used, 2000);
    assert_eq!(result.time_password_changed, 3000);
    assert_eq!(result.time_created, 1000);
    assert_eq!(result.times_used, 7);
    assert_eq!(result.guid_str(), "aaaaaaaaaaaa");
    assert_eq!(result.check_valid(), Ok(()));
}
