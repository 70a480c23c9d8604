use kiosk_store::error::StoreError;
use kiosk_store::hardware::{HardwareManager, ServiceConfig};

fn config(id: &str, name: &str, price: f64, duration: i32, is_active: bool) -> ServiceConfig {
    ServiceConfig {
        id: id.to_string(),
        name: name.to_string(),
        price_bits: price.to_bits(),
        duration,
        is_active,
    }
}

#[test]
fn test_hardware_operations() {
    let mut manager = HardwareManager::new();

    manager.add_service(config("test1", "Test Service", 10.0, 30, true)).unwrap();

    let services = manager.get_services().unwrap();
    assert_eq!(services.len(), 1);
    assert_eq!(services[0].id, "test1");
    assert_eq!(services[0].name, "Test Service");
    assert_eq!(f64::from_bits(services[0].price_bits), 10.0);
    assert_eq!(services[0].duration, 30);
    assert!(services[0].is_active);

    manager.update_service("test1", config("test1", "Updated Service", 15.0, 45, false)).unwrap();
    let services = manager.get_services().unwrap();
    assert_eq!(services.len(), 1);
    assert_eq!(services[0].name, "Updated Service");
    assert_eq!(f64::from_bits(services[0].price_bits), 15.0);
    assert_eq!(services[0].duration, 45);
    assert!(!services[0].is_active);

    manager.delete_service("test1").unwrap();
    assert_eq!(manager.get_services().unwrap().len(), 0);
}

#[test]
fn test_hardware_update_absent_id() {
    let mut manager = HardwareManager::new();
    let r = manager.update_service("ghost", config("ghost", "Nobody", 1.0, 1, true));
    assert_eq!(r, Err(StoreError::NotFound));
    assert_eq!(manager.get_services().unwrap().len(), 0);
}

#[test]
fn test_hardware_keeps_duplicates_and_order() {
    let mut manager = HardwareManager::new();
    manager.add_service(config("a", "First", 1.0, 1, true)).unwrap();
    manager.add_service(config("b", "Middle", 2.0, 2, true)).unwrap();
    manager.add_service(config("a", "Second", 3.0, 3, false)).unwrap();

    // no uniqueness enforcement: both records under "a" are kept, in order
    let services = manager.get_services().unwrap();
    assert_eq!(services.len(), 3);
    assert_eq!(services[0].name, "First");
    assert_eq!(services[1].name, "Middle");
    assert_eq!(services[2].name, "Second");

    // an update replaces only the first record with a matching id
    manager.update_service("a", config("a", "Replaced", 4.0, 4, true)).unwrap();
    let services = manager.get_services().unwrap();
    assert_eq!(services[0].name, "Replaced");
    assert_eq!(services[2].name, "Second");

    // a delete removes every record with the id, keeping the rest in order
    manager.delete_service("a").unwrap();
    let services = manager.get_services().unwrap();
    assert_eq!(services.len(), 1);
    assert_eq!(services[0].name, "Middle");
}
