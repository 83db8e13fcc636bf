use invoke_http::registry::Registry;

#[test]
fn distinct_ids_complete_in_any_order() {
    let mut reg: Registry<&'static str> = Registry::new();
    assert!(reg.register(1, "first"));
    assert!(reg.register(2, "second"));
    assert_eq!(reg.pending_count(), 2);

    // The request dispatched second completes first.
    assert_eq!(reg.complete(2), Some("second"));
    assert_eq!(reg.complete(1), Some("first"));
    assert_eq!(reg.pending_count(), 0);
}

#[test]
fn an_id_is_claimed_at_most_once() {
    let mut reg: Registry<u32> = Registry::new();
    assert!(reg.register(5, 50));
    assert!(reg.contains(5));
    assert_eq!(reg.complete(5), Some(50));
    assert!(!reg.contains(5));
    assert_eq!(reg.complete(5), None);
}

#[test]
fn duplicate_registration_is_refused() {
    let mut reg: Registry<u32> = Registry::new();
    assert!(reg.register(9, 90));
    assert!(!reg.register(9, 91));
    assert_eq!(reg.pending_count(), 1);
    assert_eq!(reg.complete(9), Some(90));
}

#[test]
fn completing_an_unknown_id_changes_nothing() {
    let mut reg: Registry<u32> = Registry::new();
    assert_eq!(reg.complete(3), None);
    assert!(reg.register(3, 30));
    assert_eq!(reg.complete(4), None);
    assert_eq!(reg.pending_count(), 1);
}
