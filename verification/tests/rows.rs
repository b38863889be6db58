use addresses::{
    Address, AddressRow, ErrorKind, Guid, LocalAddress, LocalRow, MirrorAddress, MirrorRow,
    ServerTimestamp, SyncStatus,
};

fn full_row() -> AddressRow {
    AddressRow {
        guid: "aaaaaaaaaaaa".to_string(),
        password: "secret".to_string(),
        username: Some("test".to_string()),
        hostname: "https://www.example.com".to_string(),
        http_realm: Some("The Realm".to_string()),
        form_submit_target: None,
        username_field: Some("user".to_string()),
        password_field: Some("pass".to_string()),
        time_created: 1000,
        time_last_used: Some(3000),
        time_password_changed: 2000,
        times_used: 4,
    }
}

fn sparse_row() -> AddressRow {
    AddressRow {
        guid: "bbbbbbbbbbbb".to_string(),
        password: "secret".to_string(),
        username: None,
        hostname: "https://www.example.com".to_string(),
        http_realm: None,
        form_submit_target: Some("https://www.example.com/submit".to_string()),
        username_field: None,
        password_field: None,
        time_created: 1000,
        time_last_used: None,
        time_password_changed: 2000,
        times_used: 0,
    }
}

#[test]
fn a_row_gives_its_record() {
    let record = Address::from_row(full_row());
    let expected = Address {
        guid: Guid::new("aaaaaaaaaaaa"),
        hostname: "https://www.example.com".to_string(),
        form_submit_target: None,
        http_realm: Some("The Realm".to_string()),
        username: "test".to_string(),
        password: "secret".to_string(),
        username_field: "user".to_string(),
        password_field: "pass".to_string(),
        time_created: 1000,
        time_password_changed: 2000,
        time_last_used: 3000,
        times_used: 4,
    };
    assert_eq!(record, expected);
}

#[test]
fn null_columns_of_a_row_get_their_defaults() {
    let record = Address::from_row(sparse_row());
    assert_eq!(record.guid_str(), "bbbbbbbbbbbb");
    assert_eq!(record.username, "");
    assert_eq!(record.username_field, "");
    assert_eq!(record.password_field, "");
    assert_eq!(record.time_last_used, 0);
    assert_eq!(record.http_realm, None);
    assert_eq!(record.form_submit_target.as_deref(), Some("https://www.example.com/submit"));
    assert_eq!(record.time_created, 1000);
    assert_eq!(record.time_password_changed, 2000);
    assert_eq!(record.times_used, 0);
    assert_eq!(record.check_valid(), Ok(()));
}

#[test]
fn a_row_is_not_validated() {
    let row = AddressRow { hostname: String::new(), time_created: -5, ..full_row() };
    let record = Address::from_row(row);
    assert_eq!(record.hostname, "");
    assert_eq!(record.time_created, -5);
    assert!(record.check_valid().is_err());
}

#[test]
fn a_mirror_row_gives_its_view() {
    let mirror = MirrorAddress::from_row(MirrorRow {
        address: full_row(),
        is_overridden: true,
        server_modified: 123456,
    });
    assert_eq!(mirror.address, Address::from_row(full_row()));
    assert!(mirror.is_overridden);
    assert_eq!(mirror.server_modified, ServerTimestamp(123456));
    assert_eq!(mirror.guid_str(), "aaaaaaaaaaaa");
}

#[test]
fn a_local_row_gives_its_view() {
    for (ordinal, status) in
        [(0u8, SyncStatus::Synced), (1, SyncStatus::Changed), (2, SyncStatus::New)]
    {
        let local = LocalAddress::from_row(LocalRow {
            address: sparse_row(),
            sync_status: ordinal,
            is_deleted: true,
            local_modified: 98765,
        })
        .unwrap();
        assert_eq!(local.address, Address::from_row(sparse_row()));
        assert_eq!(local.sync_status, status);
        assert!(local.is_deleted);
        assert_eq!(local.local_modified, 98765);
        assert_eq!(local.guid_str(), "bbbbbbbbbbbb");
    }
}

#[test]
fn a_local_row_with_an_unknown_sync_status_fails() {
    let failed = LocalAddress::from_row(LocalRow {
        address: full_row(),
        sync_status: 3,
        is_deleted: false,
        local_modified: 0,
    });
    assert_eq!(failed.unwrap_err(), ErrorKind::BadSyncStatus(3));
    let failed = LocalAddress::from_row(LocalRow {
        address: full_row(),
        sync_status: 255,
        is_deleted: false,
        local_modified: 0,
    });
    assert_eq!(failed.unwrap_err(), ErrorKind::BadSyncStatus(255));
}
