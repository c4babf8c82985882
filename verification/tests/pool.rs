use micro_timer::pool::{dispatch, DispatchRoute, WorkerPool};

#[test]
fn dispatch_uses_pool_until_saturated_then_falls_back() {
    let mut pool = WorkerPool::new(2);
    assert_eq!(dispatch(&mut pool), DispatchRoute::Pooled);
    assert_eq!(dispatch(&mut pool), DispatchRoute::Pooled);
    assert_eq!(pool.in_use, 2);
    // Saturated: the request is not lost, it takes the unbounded route.
    assert_eq!(dispatch(&mut pool), DispatchRoute::Fallback);
    assert_eq!(pool.in_use, 2);
    pool.release();
    assert_eq!(dispatch(&mut pool), DispatchRoute::Pooled);
}

#[test]
fn zero_capacity_pool_always_falls_back() {
    let mut pool = WorkerPool::new(0);
    assert_eq!(dispatch(&mut pool), DispatchRoute::Fallback);
    assert_eq!(dispatch(&mut pool), DispatchRoute::Fallback);
    assert_eq!(pool.in_use, 0);
}

#[test]
fn try_acquire_and_release_account_slots() {
    let mut pool = WorkerPool::new(1);
    assert!(pool.try_acquire());
    assert!(!pool.try_acquire());
    pool.release();
    assert!(pool.try_acquire());
}
