use longport_core::registry::{Registry, NO_HANDLE};

#[test]
fn handle_is_live_from_create_to_release() {
    let mut registry: Registry<String> = Registry::new();
    assert_eq!(registry.len(), 0);
    let handle = registry.create("client".to_string()).unwrap();
    assert_ne!(handle, NO_HANDLE);
    assert_eq!(handle, 1);
    assert!(registry.is_live(handle));
    assert_eq!(registry.get(handle), Some(&"client".to_string()));
    assert_eq!(registry.len(), 1);
    assert_eq!(registry.release(handle), Some("client".to_string()));
    assert!(!registry.is_live(handle));
    assert_eq!(registry.get(handle), None);
    assert_eq!(registry.len(), 0);
}

#[test]
fn second_release_gives_nothing_and_changes_nothing() {
    let mut registry: Registry<u32> = Registry::new();
    let kept = registry.create(10).unwrap();
    let handle = registry.create(20).unwrap();
    assert_eq!(registry.release(handle), Some(20));
    assert_eq!(registry.release(handle), None);
    assert_eq!(registry.release(handle), None);
    assert_eq!(registry.get(kept), Some(&10));
    assert_eq!(registry.len(), 1);
}

#[test]
fn released_handle_is_never_given_out_again() {
    let mut registry: Registry<u32> = Registry::new();
    let first = registry.create(1).unwrap();
    assert_eq!(registry.release(first), Some(1));
    let mut given = vec![first];
    for n in 0..50 {
        let handle = registry.create(n).unwrap();
        assert!(!given.contains(&handle));
        assert_eq!(registry.get(first), None);
        if n % 2 == 0 {
            assert_eq!(registry.release(handle), Some(n));
        }
        given.push(handle);
    }
    assert_eq!(registry.get(first), None);
    assert_eq!(registry.release(first), None);
    assert_eq!(registry.len(), 25);
}

#[test]
fn handle_that_was_never_given_out_is_unknown() {
    let mut registry: Registry<u32> = Registry::new();
    assert_eq!(registry.get(NO_HANDLE), None);
    assert_eq!(registry.get(1), None);
    assert_eq!(registry.get(-1), None);
    assert_eq!(registry.release(i64::MAX), None);
    assert_eq!(registry.release(NO_HANDLE), None);
    let handle = registry.create(5).unwrap();
    assert_eq!(registry.get(handle + 1), None);
    assert_eq!(registry.get(NO_HANDLE), None);
    assert!(!registry.is_live(i64::MIN));
}
