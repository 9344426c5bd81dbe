use credential_store::api::path_segments;
use credential_store::file_storage::{DiskModel, FileStorage, StorageError};
use credential_store::inlet_list::{InletInfo, InletList, ListCommand, ListError};
use credential_store::value_storage::{InMemoryValueStorage, ValueStorage};

fn bytes(s: &str) -> Vec<u8> {
    s.as_bytes().to_vec()
}

fn fresh_disk() -> DiskModel {
    DiskModel { primary: None, temp: None }
}

#[test]
fn suffix_appends_to_an_existing_extension() {
    let r = FileStorage::path_with_suffix(&bytes("vault.json"), &bytes(".tmp"));
    assert_eq!(r, bytes("vault.json.tmp"));
}

#[test]
fn suffix_becomes_the_extension_when_none_exists() {
    let r = FileStorage::path_with_suffix(&bytes("vault"), &bytes(".tmp"));
    assert_eq!(r, bytes("vault..tmp"));
}

#[test]
fn dot_in_a_directory_name_is_not_an_extension() {
    let r = FileStorage::path_with_suffix(&bytes("dir.d/vault"), &bytes(".lock"));
    assert_eq!(r, bytes("dir.d/vault..lock"));
}

#[test]
fn leading_dot_of_a_hidden_file_is_not_an_extension() {
    let r = FileStorage::path_with_suffix(&bytes(".cfg"), &bytes(".tmp"));
    assert_eq!(r, bytes(".cfg..tmp"));
}

#[test]
fn storage_location_triple_is_distinct() {
    let s = FileStorage::new(bytes("state/vault.json"));
    assert_eq!(s.path, bytes("state/vault.json"));
    assert_eq!(s.temp_path, bytes("state/vault.json.tmp"));
    assert_eq!(s.lock_path, bytes("state/vault.json.lock"));
    assert_ne!(s.temp_path, s.path);
    assert_ne!(s.lock_path, s.path);
    assert_ne!(s.temp_path, s.lock_path);
}

#[test]
fn init_writes_the_default_once_and_is_idempotent() {
    let mut disk = fresh_disk();
    let s = FileStorage::new(bytes("vault"));
    s.init(&mut disk, bytes("default"));
    assert_eq!(FileStorage::load(&disk), Ok(bytes("default")));
    // a second initialization, even with another default, changes nothing
    s.init(&mut disk, bytes("other"));
    assert_eq!(FileStorage::load(&disk), Ok(bytes("default")));
}

#[test]
fn read_after_create_returns_the_default_and_after_flush_the_new_value() {
    let mut disk = fresh_disk();
    let _s = FileStorage::create(bytes("vault"), &mut disk, bytes("D"));
    assert_eq!(FileStorage::load(&disk), Ok(bytes("D")));
    FileStorage::flush_to_file(&mut disk, bytes("V"));
    assert_eq!(FileStorage::load(&disk), Ok(bytes("V")));
}

#[test]
fn load_from_an_uninitialized_store_is_an_io_error() {
    let disk = fresh_disk();
    assert_eq!(FileStorage::load(&disk), Err(StorageError::Io));
}

#[test]
fn unparsable_snapshot_is_invalid_stored_data() {
    let r = FileStorage::parse_outcome::<u64>(None);
    assert_eq!(r, Err(StorageError::InvalidStorageData));
    let r = FileStorage::parse_outcome(Some(5u64));
    assert_eq!(r, Ok(5u64));
}

#[test]
fn crash_before_rename_keeps_the_old_content() {
    let mut disk = fresh_disk();
    let _s = FileStorage::create(bytes("vault"), &mut disk, bytes("old"));
    // the process dies here in the middle of a replace: temp written, no rename
    FileStorage::write_temp(&mut disk, bytes("new"));
    assert_eq!(FileStorage::load(&disk), Ok(bytes("old")));
    // after the rename the new content is fully visible
    FileStorage::rename_temp(&mut disk);
    assert_eq!(FileStorage::load(&disk), Ok(bytes("new")));
}

#[test]
fn test_vault_synchronization() {
    let storage = InMemoryValueStorage::new(0u8);

    let initial = storage.read_value(|value| value).unwrap();

    // the initial value is the default value
    assert_eq!(initial, 0u8);

    // the value can be updated
    let mut storage = storage;
    storage.update_value(|_| (10u8, ())).unwrap();

    // the new value can be read again
    let updated = storage.read_value(|value| value).unwrap();
    assert_eq!(updated, 10u8);
}

#[test]
fn sequential_increments_lose_no_update() {
    let mut storage = InMemoryValueStorage::new(0u64);
    let n = 10;
    for _ in 0..n {
        storage.update_value(|v| (v + 1, ())).unwrap();
    }
    let total = storage.read_value(|v| v).unwrap();
    assert_eq!(total, n);
}

#[test]
fn path_segments_drop_empty_segments() {
    let segs = path_segments(&bytes("/actions//present/"));
    assert_eq!(segs, vec![bytes("actions"), bytes("present")]);
    let segs = path_segments(&bytes("actions/present_mutual"));
    assert_eq!(segs, vec![bytes("actions"), bytes("present_mutual")]);
    let segs = path_segments(&bytes("///"));
    assert!(segs.is_empty());
}

#[test]
fn listing_no_inlets_is_an_error() {
    let cmd = ListCommand { node: None };
    let r = cmd.run(InletList { list: Vec::new() });
    assert_eq!(r.unwrap_err(), ListError::NoInlets);
}

#[test]
fn listing_reports_every_inlet_in_order() {
    let cmd = ListCommand { node: Some(bytes("n1")) };
    let list = vec![
        InletInfo {
            alias: bytes("a"),
            bind_addr: bytes("127.0.0.1:4000"),
            outlet_addr: Some(bytes("/node/outlet")),
        },
        InletInfo { alias: bytes("b"), bind_addr: bytes("127.0.0.1:4001"), outlet_addr: None },
    ];
    let rows = cmd.run(InletList { list }).unwrap();
    assert_eq!(rows.len(), 2);
    assert_eq!(rows[0].alias, bytes("a"));
    assert_eq!(rows[1].alias, bytes("b"));
    assert_eq!(rows[1].outlet_addr, None);
}
