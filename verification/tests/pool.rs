use adaptive_concurrency::pool::{Acquired, Permit, PermitPool};

fn grant(pool: &mut PermitPool) -> Permit {
    match pool.try_acquire() {
        Acquired::Granted(p) => p,
        Acquired::Exhausted => panic!("pool unexpectedly exhausted"),
        Acquired::ShutDown => panic!("pool unexpectedly shut down"),
    }
}

#[test]
fn acquire_up_to_capacity_then_exhausted() {
    let mut pool = PermitPool::new(5);
    let mut held = Vec::new();
    for _ in 0..5 {
        held.push(grant(&mut pool));
    }
    assert_eq!(pool.issued(), 5);
    // A sixth request finds no free slot.
    assert!(matches!(pool.try_acquire(), Acquired::Exhausted));
    // Releasing one permit admits exactly one more request.
    pool.release(held.pop().unwrap());
    assert_eq!(pool.issued(), 4);
    held.push(grant(&mut pool));
    assert_eq!(pool.issued(), 5);
    assert!(matches!(pool.try_acquire(), Acquired::Exhausted));
}

#[test]
fn last_slot_marks_pool_full() {
    let mut pool = PermitPool::new(2);
    let first = grant(&mut pool);
    let second = grant(&mut pool);
    assert!(!first.pool_was_full());
    assert!(second.pool_was_full());
}

#[test]
fn shrink_withholds_grants_until_drained() {
    let mut pool = PermitPool::new(5);
    let mut held = Vec::new();
    for _ in 0..5 {
        held.push(grant(&mut pool));
    }
    // Shrinking never revokes issued permits; it only withholds new grants.
    pool.resize(3);
    assert_eq!(pool.capacity(), 3);
    assert_eq!(pool.issued(), 5);
    assert!(matches!(pool.try_acquire(), Acquired::Exhausted));
    pool.release(held.pop().unwrap());
    pool.release(held.pop().unwrap());
    // Still at the new capacity: no free slot yet.
    assert_eq!(pool.issued(), 3);
    assert!(matches!(pool.try_acquire(), Acquired::Exhausted));
    pool.release(held.pop().unwrap());
    held.push(grant(&mut pool));
    assert_eq!(pool.issued(), 3);
}

#[test]
fn grow_opens_slots_immediately() {
    let mut pool = PermitPool::new(1);
    let _first = grant(&mut pool);
    assert!(matches!(pool.try_acquire(), Acquired::Exhausted));
    pool.resize(2);
    let second = grant(&mut pool);
    assert_eq!(pool.issued(), 2);
    assert!(second.pool_was_full());
}

#[test]
fn shutdown_fails_every_later_acquire() {
    let mut pool = PermitPool::new(2);
    let held = grant(&mut pool);
    pool.shutdown();
    assert!(pool.is_shut_down());
    assert!(matches!(pool.try_acquire(), Acquired::ShutDown));
    // Outstanding permits can still be returned.
    pool.release(held);
    assert_eq!(pool.issued(), 0);
    assert!(matches!(pool.try_acquire(), Acquired::ShutDown));
}
