use reliability_toolkit::bulkhead::{Bulkhead, MAX_PERMITS};

#[test]
fn capacity_caps_in_flight_count() {
    let pool = Bulkhead::new(2);
    assert_eq!(pool.capacity(), 2);
    assert_eq!(pool.available_permits(), 2);

    let p1 = pool.try_acquire().unwrap();
    let p2 = pool.try_acquire().unwrap();
    assert_eq!(pool.available_permits(), 0);
    assert!(pool.try_acquire().is_none());

    drop(p1);
    assert_eq!(pool.available_permits(), 1);
    assert!(pool.try_acquire().is_some());
    drop(p2);
}

#[test]
fn try_acquire_returns_none_when_full() {
    let pool = Bulkhead::new(1);
    let p = pool.try_acquire().expect("first take should succeed");
    assert!(pool.try_acquire().is_none());
    drop(p);
    assert!(pool.try_acquire().is_some());
}

#[test]
fn closed_bulkhead_rejects_try_acquire() {
    let pool = Bulkhead::new(1);
    pool.close();
    assert!(pool.try_acquire().is_none());
}

#[test]
fn clones_share_the_slots() {
    let pool = Bulkhead::new(1);
    let other = pool.clone();
    let p = other.try_acquire().unwrap();
    assert!(pool.try_acquire().is_none());
    assert_eq!(other.capacity(), 1);
    drop(p);
    assert_eq!(pool.available_permits(), 1);
}

#[test]
fn semaphore_handle_is_the_same_semaphore() {
    let pool = Bulkhead::new(3);
    let sem = pool.semaphore();
    let held = sem.clone().try_acquire_owned().unwrap();
    assert_eq!(pool.available_permits(), 2);
    let permit = Bulkhead::permit_from(Ok(held));
    assert!(permit.is_ok());
    drop(permit);
    assert_eq!(pool.available_permits(), 3);
}

#[test]
fn largest_capacity_is_accepted() {
    let pool = Bulkhead::new(MAX_PERMITS);
    assert_eq!(pool.capacity(), MAX_PERMITS);
    assert_eq!(MAX_PERMITS, usize::MAX >> 3);
}

#[test]
fn new_bulkhead_has_all_slots_free() {
    for cap in [1usize, 3, 17] {
        let pool = Bulkhead::new(cap);
        assert_eq!(pool.available_permits(), cap);
        let held: Vec<_> = (0..cap).map(|_| pool.try_acquire().unwrap()).collect();
        assert!(pool.try_acquire().is_none());
        assert_eq!(held.len(), cap);
    }
}
