use lockey::client::LockClient;
use lockey::errors::LockServiceErrors;

#[test]
fn it_works() {
    let result = lockey::client::add(2, 2);
    assert_eq!(result, 4);
}

#[test]
fn acquire_test() {
    let mut lc = LockClient::new();

    // First acquisition should succeed
    assert!(lc.acquire("user1".to_string(), "object1".to_string()).is_ok());

    // Second acquisition should fail with ObjectAlreadyLocked error
    match lc.acquire("user1".to_string(), "object1".to_string()) {
        Ok(_) => panic!("Expected an error, but got Ok"),
        Err(e) => assert_eq!(e, LockServiceErrors::ObjectAlreadyLocked),
    }
}

#[test]
fn release_test() {
    let mut lc = LockClient::new();

    // First release should fail with ObjectNotLocked error
    match lc.release("user1".to_string(), "object1".to_string()) {
        Ok(_) => panic!("Expected an error, but got Ok"),
        Err(e) => assert_eq!(e, LockServiceErrors::ObjectNotLocked),
    }

    assert!(lc.acquire("user1".to_string(), "object1".to_string()).is_ok());

    assert!(lc.release("user1".to_string(), "onject1".to_string()).is_ok());
}

#[test]
fn acquire_different_resource_still_fails() {
    // Mutual exclusion is per requester: while user1 is locked, a second
    // acquire fails whatever resource id it names.
    let mut lc = LockClient::new();
    assert!(lc.acquire("user1".to_string(), "object1".to_string()).is_ok());
    assert_eq!(
        lc.acquire("user1".to_string(), "object2".to_string()),
        Err(LockServiceErrors::ObjectAlreadyLocked)
    );
}

#[test]
fn release_after_release_fails() {
    let mut lc = LockClient::new();
    assert!(lc.acquire("u1".to_string(), "o1".to_string()).is_ok());
    assert_eq!(lc.release("u1".to_string(), "o1".to_string()), Ok(()));
    assert_eq!(
        lc.release("u1".to_string(), "o1".to_string()),
        Err(LockServiceErrors::ObjectNotLocked)
    );
}

#[test]
fn new_descriptor_carries_both_ids() {
    let descriptor = lockey::client::new_descriptor("u1".to_string(), "o1".to_string());
    assert_eq!(descriptor.user_id, "u1".to_string());
    assert_eq!(descriptor.obj_id, "o1".to_string());
}

#[test]
fn descriptor_equality_is_structural() {
    let a = lockey::client::new_descriptor("u1".to_string(), "o1".to_string());
    let b = lockey::client::new_descriptor("u1".to_string(), "o1".to_string());
    let c = lockey::client::new_descriptor("u1".to_string(), "o2".to_string());
    let d = lockey::client::new_descriptor("u2".to_string(), "o1".to_string());
    assert!(a == b);
    assert!(a != c);
    assert!(a != d);
}
