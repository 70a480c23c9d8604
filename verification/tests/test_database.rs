use kiosk_store::database::{Database, Service};
use kiosk_store::error::StoreError;

fn service(id: &str, name: &str, price: f64, duration: i32, is_active: bool) -> Service {
    Service {
        id: id.to_string(),
        name: name.to_string(),
        price_bits: price.to_bits(),
        duration,
        is_active,
    }
}

#[test]
fn test_database_operations() {
    let dir = tempfile::tempdir().unwrap();
    let path = dir.path().join("kiosk.db");
    let mut db = Database::new(path.to_str().unwrap()).unwrap();

    db.add_service(&service("test1", "Test Service", 10.0, 30, true)).unwrap();

    let services = db.get_services().unwrap();
    assert_eq!(services.len(), 1);
    assert_eq!(services[0].id, "test1");
    assert_eq!(services[0].name, "Test Service");
    assert_eq!(f64::from_bits(services[0].price_bits), 10.0);
    assert_eq!(services[0].duration, 30);
    assert!(services[0].is_active);

    db.update_service(&service("test1", "Updated Service", 15.0, 45, false)).unwrap();
    let services = db.get_services().unwrap();
    assert_eq!(services.len(), 1);
    assert_eq!(services[0].name, "Updated Service");
    assert_eq!(f64::from_bits(services[0].price_bits), 15.0);
    assert_eq!(services[0].duration, 45);
    assert!(!services[0].is_active);

    db.delete_service("test1").unwrap();
    assert_eq!(db.get_services().unwrap().len(), 0);
}

#[test]
fn test_database_backup() {
    let dir = tempfile::tempdir().unwrap();
    let path = dir.path().join("kiosk.db");
    let backup_path = dir.path().join("backup.db");
    let mut db = Database::new(path.to_str().unwrap()).unwrap();

    db.add_service(&service("test1", "Test Service", 10.0, 30, true)).unwrap();
    db.backup(backup_path.to_str().unwrap()).unwrap();

    let backup_db = Database::new(backup_path.to_str().unwrap()).unwrap();
    let services = backup_db.get_services().unwrap();
    assert_eq!(services.len(), 1);
    assert_eq!(services[0].id, "test1");
}

#[test]
fn test_duplicate_insert_refused() {
    let mut db = Database::new_in_memory().unwrap();
    db.add_service(&service("test1", "Test Service", 10.0, 30, true)).unwrap();
    let second = db.add_service(&service("test1", "Another Name", 99.5, 5, false));
    assert_eq!(second, Err(StoreError::DuplicateKey));

    let services = db.get_services().unwrap();
    assert_eq!(services.len(), 1);
    assert_eq!(services[0].name, "Test Service");
    assert_eq!(f64::from_bits(services[0].price_bits), 10.0);
    assert_eq!(services[0].duration, 30);
    assert!(services[0].is_active);
}

#[test]
fn test_update_absent_id_not_found() {
    let mut db = Database::new_in_memory().unwrap();
    let r = db.update_service(&service("ghost", "Nobody", 1.0, 1, true));
    assert_eq!(r, Err(StoreError::NotFound));
    assert_eq!(db.get_services().unwrap().len(), 0);
}

#[test]
fn test_update_replaces_every_field() {
    let mut db = Database::new_in_memory().unwrap();
    db.add_service(&service("a", "Before", 2.5, 10, true)).unwrap();
    db.update_service(&service("a", "After", 7.25, 20, false)).unwrap();
    let services = db.get_services().unwrap();
    assert_eq!(services.len(), 1);
    assert_eq!(services[0].id, "a");
    assert_eq!(services[0].name, "After");
    assert_eq!(f64::from_bits(services[0].price_bits), 7.25);
    assert_eq!(services[0].duration, 20);
    assert!(!services[0].is_active);
}

#[test]
fn test_delete_is_idempotent() {
    let mut db = Database::new_in_memory().unwrap();
    db.add_service(&service("a", "A", 1.0, 1, true)).unwrap();
    db.add_service(&service("b", "B", 2.0, 2, false)).unwrap();

    // absent id: success, nothing changes
    db.delete_service("missing").unwrap();
    assert_eq!(db.get_services().unwrap().len(), 2);

    // deleting twice equals deleting once
    db.delete_service("a").unwrap();
    db.delete_service("a").unwrap();
    let services = db.get_services().unwrap();
    assert_eq!(services.len(), 1);
    assert_eq!(services[0].id, "b");
}

#[test]
fn test_backup_fidelity_and_independence() {
    let dir = tempfile::tempdir().unwrap();
    let path = dir.path().join("src.db");
    let backup_path = dir.path().join("snap.db");
    let mut db = Database::new(path.to_str().unwrap()).unwrap();
    for i in 0..4 {
        let s = service(
            &format!("id{}", i),
            &format!("Name {}", i),
            1.5 * (i as f64 + 1.0),
            10 * (i + 1),
            i % 2 == 0,
        );
        db.add_service(&s).unwrap();
    }
    db.backup(backup_path.to_str().unwrap()).unwrap();

    // mutating the source afterwards never changes the snapshot
    db.delete_service("id0").unwrap();
    db.update_service(&service("id1", "Changed", 0.25, 1, false)).unwrap();

    let snap = Database::new(backup_path.to_str().unwrap()).unwrap();
    let mut services = snap.get_services().unwrap();
    services.sort_by(|a, b| a.id.cmp(&b.id));
    assert_eq!(services.len(), 4);
    for i in 0..4usize {
        assert_eq!(services[i].id, format!("id{}", i));
        assert_eq!(services[i].name, format!("Name {}", i));
        assert_eq!(f64::from_bits(services[i].price_bits), 1.5 * (i as f64 + 1.0));
        assert_eq!(services[i].duration, 10 * (i as i32 + 1));
        assert_eq!(services[i].is_active, i % 2 == 0);
    }
}

#[test]
fn test_serialized_distinct_inserts() {
    let mut db = Database::new_in_memory().unwrap();
    for i in 0..5 {
        let s = service(
            &format!("test{}", i),
            &format!("Test Service {}", i),
            10.0 * (i as f64 + 1.0),
            30 * (i + 1),
            true,
        );
        db.add_service(&s).unwrap();
    }
    let mut services = db.get_services().unwrap();
    assert_eq!(services.len(), 5);
    services.sort_by(|a, b| a.id.cmp(&b.id));
    for i in 0..5usize {
        assert_eq!(services[i].id, format!("test{}", i));
        assert_eq!(services[i].name, format!("Test Service {}", i));
        assert_eq!(f64::from_bits(services[i].price_bits), 10.0 * (i as f64 + 1.0));
        assert_eq!(services[i].duration, 30 * (i as i32 + 1));
    }
}

#[test]
fn test_price_bits_stored_verbatim() {
    let mut db = Database::new_in_memory().unwrap();
    let odd_price = 0.1f64 + 0.2f64;  // not exactly representable in decimal
    db.add_service(&service("p", "Priced", odd_price, 0, true)).unwrap();
    let services = db.get_services().unwrap();
    assert_eq!(services[0].price_bits, odd_price.to_bits());
}

#[test]
fn test_reopen_preserves_records() {
    let dir = tempfile::tempdir().unwrap();
    let path = dir.path().join("kiosk.db");
    {
        let mut db = Database::new(path.to_str().unwrap()).unwrap();
        db.add_service(&service("keep", "Durable", 3.5, 7, true)).unwrap();
    }
    let db = Database::new(path.to_str().unwrap()).unwrap();
    let services = db.get_services().unwrap();
    assert_eq!(services.len(), 1);
    assert_eq!(services[0].id, "keep");
    assert_eq!(services[0].name, "Durable");
    assert_eq!(f64::from_bits(services[0].price_bits), 3.5);
    assert_eq!(services[0].duration, 7);
    assert!(services[0].is_active);
}

#[test]
fn test_deviant_schema_refused() {
    let dir = tempfile::tempdir().unwrap();
    let path = dir.path().join("foreign.db");
    {
        // a pre-existing services table without the declared primary key
        let conn = rusqlite::Connection::open(&path).unwrap();
        conn.execute(
            "CREATE TABLE services (id TEXT, name TEXT, price REAL, duration INTEGER, is_active BOOLEAN)",
            (),
        )
        .unwrap();
    }
    let r = Database::new(path.to_str().unwrap());
    assert!(matches!(r, Err(StoreError::Initialization)));
}

#[test]
fn test_triggered_table_refused() {
    let dir = tempfile::tempdir().unwrap();
    let path = dir.path().join("triggered.db");
    {
        let mut db = Database::new(path.to_str().unwrap()).unwrap();
        db.add_service(&service("a", "A", 1.0, 1, true)).unwrap();
    }
    {
        let conn = rusqlite::Connection::open(&path).unwrap();
        conn.execute(
            "CREATE TRIGGER wipe AFTER INSERT ON services BEGIN DELETE FROM services; END",
            (),
        )
        .unwrap();
    }
    let r = Database::new(path.to_str().unwrap());
    assert!(matches!(r, Err(StoreError::Initialization)));
}

#[test]
fn test_backup_onto_own_file_fails() {
    let dir = tempfile::tempdir().unwrap();
    let path = dir.path().join("kiosk.db");
    let mut db = Database::new(path.to_str().unwrap()).unwrap();
    db.add_service(&service("a", "A", 1.0, 1, true)).unwrap();

    // the call must return, with an error, and leave the store intact
    let r = db.backup(path.to_str().unwrap());
    assert!(matches!(r, Err(StoreError::Storage)));
    let services = db.get_services().unwrap();
    assert_eq!(services.len(), 1);
    assert_eq!(services[0].id, "a");
}

#[test]
fn test_error_messages() {
    assert_eq!(StoreError::DuplicateKey.message(), "a record with this id already exists");
    assert_eq!(StoreError::NotFound.message(), "no record with this id exists");
    assert_eq!(StoreError::Storage.message(), "the backing storage failed");
    assert_eq!(StoreError::Initialization.message(), "failed to initialize the store");
}
