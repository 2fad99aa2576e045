use tsm::customer::Customer;

#[test]
fn new_customer_keeps_every_field() {
    let c = Customer::new(7, "Ada", "ada@example.com", "1 Main St", Some("555-0100"));
    assert_eq!(c.id(), 7);
    assert_eq!(c.name(), "Ada");
    assert_eq!(c.email(), "ada@example.com");
    assert_eq!(c.address(), "1 Main St");
    assert_eq!(c.contact_number(), Some("555-0100"));
}

#[test]
fn new_customer_without_contact_number() {
    let c = Customer::new(0, "Bo", "bo@example.com", "2 Side St", None);
    assert_eq!(c.id(), 0);
    assert_eq!(c.contact_number(), None);
}

#[test]
fn update_replaces_all_but_the_id() {
    let mut c = Customer::new(3, "Ada", "ada@example.com", "1 Main St", Some("555-0100"));
    c.update("Eve", "eve@example.com", "9 High St", None);
    assert_eq!(c.id(), 3);
    assert_eq!(c.name(), "Eve");
    assert_eq!(c.email(), "eve@example.com");
    assert_eq!(c.address(), "9 High St");
    assert_eq!(c.contact_number(), None);
}

#[test]
fn customers_are_equal_when_every_field_is() {
    let a = Customer::new(1, "Ada", "ada@example.com", "1 Main St", Some("555"));
    assert!(a == a.clone());
    assert!(a == Customer::new(1, "Ada", "ada@example.com", "1 Main St", Some("555")));
    assert!(a != Customer::new(2, "Ada", "ada@example.com", "1 Main St", Some("555")));
    assert!(a != Customer::new(1, "Eve", "ada@example.com", "1 Main St", Some("555")));
    assert!(a != Customer::new(1, "Ada", "eve@example.com", "1 Main St", Some("555")));
    assert!(a != Customer::new(1, "Ada", "ada@example.com", "2 Main St", Some("555")));
    assert!(a != Customer::new(1, "Ada", "ada@example.com", "1 Main St", Some("556")));
    assert!(a != Customer::new(1, "Ada", "ada@example.com", "1 Main St", None));
    let b = Customer::new(1, "Ada", "ada@example.com", "1 Main St", None);
    assert!(b == Customer::new(1, "Ada", "ada@example.com", "1 Main St", None));
    assert!(b != a);
}

#[test]
fn record_is_new_under_the_id_zero() {
    assert!(Customer::new(0, "Ada", "a@example.com", "1 Main St", None).is_new());
    assert!(!Customer::new(1, "Ada", "a@example.com", "1 Main St", None).is_new());
    assert!(!Customer::new(-1, "Ada", "a@example.com", "1 Main St", None).is_new());
    assert!(!Customer::new(i32::MIN, "Ada", "a@example.com", "1 Main St", None).is_new());
}
