use router::error::LockError;
use router::locking::{LockAction, LockKey, LockManager, ResourceType};

fn link_key(merchant: &str, id: &str) -> LockKey {
    LockKey::new(merchant, ResourceType::PaymentLink, id)
}

#[test]
fn fresh_store_holds_nothing() {
    let locks = LockManager::new();
    assert_eq!(locks.is_held(&link_key("M1", "L1"), 0), Ok(false));
}

#[test]
fn acquire_grants_a_free_key_until_now_plus_ttl() {
    let mut locks = LockManager::new();
    let handle = locks.acquire(&link_key("M1", "L1"), 30, 100).unwrap();
    assert_eq!(handle.expires_at(), 130);
    assert_eq!(handle.key(), &link_key("M1", "L1"));
    assert!(!handle.is_expired(129));
    assert!(handle.is_expired(130));
    assert_eq!(locks.is_held(&link_key("M1", "L1"), 100), Ok(true));
    assert_eq!(locks.is_held(&link_key("M1", "L1"), 129), Ok(true));
}

#[test]
fn second_acquire_of_a_held_key_is_refused_at_once() {
    let mut locks = LockManager::new();
    let key = link_key("M1", "L1");
    let first = locks.acquire(&key, 30, 100);
    assert!(first.is_ok());
    let second = locks.acquire(&key, 30, 110);
    assert_eq!(second.err(), Some(LockError::Contention));
    let third = locks.acquire(&key, 500, 129);
    assert_eq!(third.err(), Some(LockError::Contention));
}

#[test]
fn refused_acquire_leaves_the_holder_in_place() {
    let mut locks = LockManager::new();
    let key = link_key("M1", "L1");
    let first = locks.acquire(&key, 30, 100).unwrap();
    assert!(locks.acquire(&key, 1000, 110).is_err());
    assert_eq!(locks.is_held(&key, 129), Ok(true));
    assert_eq!(locks.is_held(&key, 130), Ok(false));
    assert!(locks.release(first));
}

#[test]
fn keys_differ_by_merchant_type_and_id() {
    let mut locks = LockManager::new();
    assert!(locks.acquire(&link_key("M1", "L1"), 30, 100).is_ok());
    assert!(locks.acquire(&link_key("M2", "L1"), 30, 100).is_ok());
    assert!(locks.acquire(&link_key("M1", "L2"), 30, 100).is_ok());
    assert!(locks.acquire(&LockKey::new("M1", ResourceType::Payment, "L1"), 30, 100).is_ok());
    assert!(locks.acquire(&LockKey::new("M1", ResourceType::Refund, "L1"), 30, 100).is_ok());
    assert_eq!(
        locks.acquire(&link_key("M1", "L1"), 30, 100).err(),
        Some(LockError::Contention)
    );
}

#[test]
fn release_frees_the_key_at_once() {
    let mut locks = LockManager::new();
    let key = link_key("M1", "L1");
    let handle = locks.acquire(&key, 30, 100).unwrap();
    assert!(locks.release(handle));
    assert_eq!(locks.is_held(&key, 101), Ok(false));
    assert!(locks.acquire(&key, 30, 101).is_ok());
}

#[test]
fn lock_never_released_is_free_after_its_ttl() {
    let mut locks = LockManager::new();
    let key = link_key("M1", "L1");
    let _abandoned = locks.acquire(&key, 5, 100).unwrap();
    assert_eq!(locks.acquire(&key, 5, 104).err(), Some(LockError::Contention));
    let next = locks.acquire(&key, 5, 105);
    assert!(next.is_ok());
    assert_eq!(next.unwrap().expires_at(), 110);
}

#[test]
fn stale_handle_does_not_release_the_new_holder() {
    let mut locks = LockManager::new();
    let key = link_key("M1", "L1");
    let stale = locks.acquire(&key, 5, 100).unwrap();
    let current = locks.acquire(&key, 50, 105).unwrap();
    assert!(!locks.release(stale));
    assert_eq!(locks.is_held(&key, 106), Ok(true));
    assert!(locks.release(current));
    assert_eq!(locks.is_held(&key, 106), Ok(false));
}

#[test]
fn expired_handle_still_removes_its_own_lease() {
    let mut locks = LockManager::new();
    let key = link_key("M1", "L1");
    let handle = locks.acquire(&key, 5, 100).unwrap();
    assert_eq!(locks.is_held(&key, 200), Ok(false));
    assert!(locks.release(handle));
}

#[test]
fn zero_ttl_lock_never_binds() {
    let mut locks = LockManager::new();
    let key = link_key("M1", "L1");
    let first = locks.acquire(&key, 0, 100).unwrap();
    assert_eq!(first.expires_at(), 100);
    assert_eq!(locks.is_held(&key, 100), Ok(false));
    assert!(locks.acquire(&key, 10, 100).is_ok());
}

#[test]
fn expiry_stops_at_the_end_of_time() {
    let mut locks = LockManager::new();
    let key = link_key("M1", "L1");
    let handle = locks.acquire(&key, u64::MAX, 10).unwrap();
    assert_eq!(handle.expires_at(), u64::MAX);
    assert_eq!(locks.is_held(&key, u64::MAX - 1), Ok(true));
    assert_eq!(locks.is_held(&key, u64::MAX), Ok(false));
}

#[test]
fn unreachable_store_fails_acquire_as_unavailable_not_as_contention() {
    let mut locks = LockManager::new();
    let key = link_key("M1", "L1");
    let held = locks.acquire(&key, 30, 100).unwrap();
    locks.set_reachable(false);
    assert_eq!(locks.acquire(&key, 30, 101).err(), Some(LockError::StoreUnavailable));
    assert_eq!(
        locks.acquire(&link_key("M1", "L2"), 30, 101).err(),
        Some(LockError::StoreUnavailable)
    );
    assert_eq!(locks.is_held(&key, 101), Err(LockError::StoreUnavailable));
    assert!(!locks.release(held));
    locks.set_reachable(true);
    assert_eq!(locks.is_held(&key, 101), Ok(true));
    assert_eq!(locks.is_held(&key, 130), Ok(false));
}

#[test]
fn lock_action_names_the_key_of_the_merchant() {
    let action = LockAction::Lock {
        resource_type: ResourceType::PaymentLink,
        resource_id: "L1".to_string(),
    };
    assert_eq!(action.key_for(&"M1".to_string()), Some(link_key("M1", "L1")));
    assert_eq!(LockAction::NotApplicable.key_for(&"M1".to_string()), None);
}

#[test]
fn same_as_compares_all_three_parts() {
    let key = link_key("M1", "L1");
    assert!(key.same_as(&link_key("M1", "L1")));
    assert!(!key.same_as(&link_key("M1", "L2")));
    assert!(!key.same_as(&link_key("M2", "L1")));
    assert!(!key.same_as(&LockKey::new("M1", ResourceType::Payout, "L1")));
    assert!(key.clone().same_as(&key));
}
