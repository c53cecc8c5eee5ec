use timezone_db::config::RedisConfig;
use timezone_db::db::redis_helper::{
    connect, ConnectAttempt, ConnectError, PoolError, PooledConnection, RedisPool, Released,
};

fn settings(pool_size: u32) -> RedisConfig {
    RedisConfig {
        url: String::from("redis://127.0.0.1:6379/"),
        pool_size,
        connect_timeout_seconds: 1,
    }
}

fn warm_pool(pool_size: u32) -> RedisPool<u32> {
    let mut pool: RedisPool<u32> = RedisPool::new(settings(pool_size)).unwrap();
    let mut next = 100;
    while pool.warmup_remaining() > 0 {
        let left = pool.warmup_remaining();
        let after = pool.initialize_pool(ConnectAttempt::Connected(next)).unwrap();
        assert_eq!(after, left - 1);
        next += 1;
    }
    pool
}

fn value_of(handle: &PooledConnection<u32>) -> u32 {
    *handle.as_ref().unwrap()
}

#[test]
fn new_pool_is_empty() {
    let pool: RedisPool<u32> = RedisPool::new(settings(3)).unwrap();
    assert_eq!(pool.idle_count(), 0);
    assert_eq!(pool.pool_size(), 3);
    assert_eq!(pool.warmup_remaining(), 3);
    assert_eq!(pool.connect_timeout_seconds(), 1);
}

#[test]
fn zero_capacity_is_refused() {
    let made: Result<RedisPool<u32>, PoolError> = RedisPool::new(settings(0));
    assert!(matches!(made, Err(PoolError::ZeroCapacity)));
}

#[test]
fn unparsable_address_is_refused() {
    let mut config = settings(2);
    config.url = String::from("not an address");
    let made: Result<RedisPool<u32>, PoolError> = RedisPool::new(config);
    assert!(matches!(made, Err(PoolError::InvalidAddress)));
    let mut other = settings(2);
    other.url = String::from("http://127.0.0.1/");
    let made: Result<RedisPool<u32>, PoolError> = connect(&other);
    assert!(matches!(made, Err(PoolError::InvalidAddress)));
}

#[test]
fn zero_capacity_is_reported_before_the_address() {
    let mut config = settings(0);
    config.url = String::from("not an address");
    let made: Result<RedisPool<u32>, PoolError> = RedisPool::new(config);
    assert!(matches!(made, Err(PoolError::ZeroCapacity)));
}

#[test]
fn with_client_follows_the_opening() {
    let opened = redis::Client::open("redis://127.0.0.1/");
    let made: Result<RedisPool<u32>, PoolError> = RedisPool::with_client(settings(1), opened);
    assert!(made.is_ok());
    let failed = redis::Client::open("nonsense");
    let made: Result<RedisPool<u32>, PoolError> = RedisPool::with_client(settings(1), failed);
    assert!(matches!(made, Err(PoolError::InvalidAddress)));
    let opened = redis::Client::open("redis://127.0.0.1/");
    let made: Result<RedisPool<u32>, PoolError> = RedisPool::with_client(settings(0), opened);
    assert!(matches!(made, Err(PoolError::ZeroCapacity)));
}

#[test]
fn connect_makes_the_same_pool_as_new() {
    let pool: RedisPool<u32> = connect(&settings(4)).unwrap();
    assert_eq!(pool.idle_count(), 0);
    assert_eq!(pool.pool_size(), 4);
}

#[test]
fn client_keeps_the_configured_address() {
    let pool: RedisPool<u32> = RedisPool::new(settings(1)).unwrap();
    let info = pool.client().get_connection_info();
    assert_eq!(info.addr.to_string(), "127.0.0.1:6379");
}

#[test]
fn prewarm_fills_the_pool() {
    let pool = warm_pool(3);
    assert_eq!(pool.idle_count(), 3);
    assert_eq!(pool.warmup_remaining(), 0);
}

#[test]
fn failed_prewarm_reports_the_error_and_keeps_the_pool() {
    let mut pool: RedisPool<u32> = RedisPool::new(settings(2)).unwrap();
    assert_eq!(pool.initialize_pool(ConnectAttempt::Connected(1)), Ok(1));
    assert_eq!(
        pool.initialize_pool(ConnectAttempt::Failed),
        Err(PoolError::Connect(ConnectError::Transport))
    );
    assert_eq!(
        pool.initialize_pool(ConnectAttempt::TimedOut),
        Err(PoolError::Connect(ConnectError::Timeout))
    );
    assert_eq!(pool.idle_count(), 1);
}

#[test]
fn prewarmed_pool_serves_without_the_factory() {
    let mut pool = warm_pool(2);
    let first = pool.get_connection();
    let second = pool.get_connection();
    assert!(first.is_some());
    assert!(second.is_some());
    assert_eq!(pool.idle_count(), 0);
    let third = pool.get_connection();
    assert!(third.is_none());
    let third = RedisPool::lease_new(ConnectAttempt::Connected(7)).unwrap();
    assert_eq!(value_of(&third), 7);
    assert_eq!(pool.idle_count(), 0);
}

#[test]
fn factory_timeout_is_reported() {
    let verdict: Result<u32, PoolError> = RedisPool::create_connection(ConnectAttempt::TimedOut);
    assert_eq!(verdict, Err(PoolError::Connect(ConnectError::Timeout)));
    let mut pool: RedisPool<u32> = RedisPool::new(settings(1)).unwrap();
    assert!(pool.get_connection().is_none());
    let leased: Result<PooledConnection<u32>, PoolError> =
        RedisPool::lease_new(ConnectAttempt::TimedOut);
    assert!(matches!(leased, Err(PoolError::Connect(ConnectError::Timeout))));
    assert_eq!(pool.idle_count(), 0);
}

#[test]
fn factory_failure_and_success_are_reported() {
    let failed: Result<u32, PoolError> = RedisPool::create_connection(ConnectAttempt::Failed);
    assert_eq!(failed, Err(PoolError::Connect(ConnectError::Transport)));
    let made: Result<u32, PoolError> = RedisPool::create_connection(ConnectAttempt::Connected(9));
    assert_eq!(made, Ok(9));
}

#[test]
fn overflow_connection_is_discarded_on_release() {
    let mut pool = warm_pool(1);
    let mut first = pool.get_connection().unwrap();
    assert!(pool.get_connection().is_none());
    let mut overflow = RedisPool::lease_new(ConnectAttempt::Connected(55)).unwrap();
    assert_eq!(first.release(&mut pool), Released::Returned);
    assert_eq!(overflow.release(&mut pool), Released::Discarded);
    assert_eq!(pool.idle_count(), 1);
    let again = pool.get_connection().unwrap();
    assert_eq!(value_of(&again), 100);
}

#[test]
fn release_after_a_failed_request_returns_the_connection() {
    fn failing_caller(pool: &mut RedisPool<u32>) -> Result<(), &'static str> {
        let mut handle = pool.get_connection().ok_or("nothing idle")?;
        let outcome: Result<(), &'static str> = Err("request failed");
        handle.release(pool);
        outcome
    }
    let mut pool = warm_pool(1);
    assert_eq!(failing_caller(&mut pool), Err("request failed"));
    assert_eq!(pool.idle_count(), 1);
}

#[test]
fn idle_list_stays_within_capacity() {
    let mut pool = warm_pool(2);
    let mut held: Vec<PooledConnection<u32>> = Vec::new();
    for round in 0..20u32 {
        if round % 3 == 0 {
            for handle in held.iter_mut() {
                handle.release(&mut pool);
                assert!(pool.idle_count() <= 2);
            }
            held.clear();
        } else {
            let handle = match pool.get_connection() {
                Some(handle) => handle,
                None => RedisPool::lease_new(ConnectAttempt::Connected(1000 + round)).unwrap(),
            };
            held.push(handle);
        }
        assert!(pool.idle_count() <= 2);
    }
    for extra in 0..5u32 {
        pool.return_connection(extra);
        assert!(pool.idle_count() <= 2);
    }
    assert_eq!(pool.idle_count(), 2);
}

#[test]
fn leased_connections_are_distinct_and_leave_the_pool() {
    let mut pool = warm_pool(3);
    let a = pool.get_connection().unwrap();
    assert_eq!(pool.idle_count(), 2);
    let b = pool.get_connection().unwrap();
    let c = pool.get_connection().unwrap();
    assert_eq!((value_of(&a), value_of(&b), value_of(&c)), (100, 101, 102));
    assert_eq!(pool.idle_count(), 0);
}

#[test]
fn connections_come_back_in_the_order_of_release() {
    let mut pool = warm_pool(2);
    let mut a = pool.get_connection().unwrap();
    let mut b = pool.get_connection().unwrap();
    assert_eq!(b.release(&mut pool), Released::Returned);
    assert_eq!(a.release(&mut pool), Released::Returned);
    assert_eq!(value_of(&pool.get_connection().unwrap()), 101);
    assert_eq!(value_of(&pool.get_connection().unwrap()), 100);
}

#[test]
fn return_connection_hands_back_what_it_cannot_keep() {
    let mut pool: RedisPool<u32> = RedisPool::new(settings(1)).unwrap();
    assert_eq!(pool.return_connection(1), None);
    assert_eq!(pool.return_connection(2), Some(2));
    assert_eq!(pool.idle_count(), 1);
}

#[test]
fn handle_gives_its_connection_once() {
    let mut pool = warm_pool(1);
    let mut handle = pool.get_connection().unwrap();
    assert!(!handle.is_released());
    assert_eq!(handle.take(), Some(100));
    assert!(handle.is_released());
    assert_eq!(handle.take(), None);
    assert_eq!(handle.release(&mut pool), Released::AlreadyReleased);
    assert_eq!(pool.idle_count(), 0);
}

#[test]
fn second_release_changes_nothing() {
    let mut pool = warm_pool(2);
    let mut handle = pool.get_connection().unwrap();
    assert_eq!(handle.release(&mut pool), Released::Returned);
    assert_eq!(pool.idle_count(), 2);
    assert_eq!(handle.release(&mut pool), Released::AlreadyReleased);
    assert_eq!(pool.idle_count(), 2);
}

#[test]
fn released_handle_fails_fast() {
    let mut pool = warm_pool(1);
    let mut handle = pool.get_connection().unwrap();
    handle.release(&mut pool);
    assert!(matches!(handle.as_mut(), Err(PoolError::InvalidState)));
    assert!(matches!(handle.as_ref(), Err(PoolError::InvalidState)));
    assert_eq!(pool.idle_count(), 1);
}

#[test]
fn live_handle_gives_access_to_its_connection() {
    let mut pool = warm_pool(1);
    let mut handle = pool.get_connection().unwrap();
    *handle.as_mut().unwrap() = 5;
    assert_eq!(handle.as_ref(), Ok(&5));
    assert_eq!(handle.release(&mut pool), Released::Returned);
    assert_eq!(value_of(&pool.get_connection().unwrap()), 5);
}

struct Scoped<'a> {
    handle: PooledConnection<u32>,
    pool: &'a std::cell::RefCell<RedisPool<u32>>,
}

impl Drop for Scoped<'_> {
    fn drop(&mut self) {
        self.handle.release(&mut self.pool.borrow_mut());
    }
}

fn lease(pool: &std::cell::RefCell<RedisPool<u32>>) -> Scoped<'_> {
    let idle = pool.borrow_mut().get_connection();
    let handle = match idle {
        Some(handle) => handle,
        None => RedisPool::lease_new(ConnectAttempt::Connected(77)).unwrap(),
    };
    Scoped { handle, pool }
}

#[test]
fn handle_of_a_failed_caller_still_returns_its_connection() {
    fn failing_caller(pool: &std::cell::RefCell<RedisPool<u32>>) -> Result<u32, PoolError> {
        let mut scoped = lease(pool);
        assert_eq!(pool.borrow().idle_count(), 0);
        scoped.handle.take();
        let value = *scoped.handle.as_ref()?;
        Ok(value)
    }
    fn early_return(pool: &std::cell::RefCell<RedisPool<u32>>) -> Result<u32, &'static str> {
        let _scoped = lease(pool);
        Err("request failed")
    }
    let pool = std::cell::RefCell::new(warm_pool(1));
    assert_eq!(early_return(&pool), Err("request failed"));
    assert_eq!(pool.borrow().idle_count(), 1);
    assert_eq!(failing_caller(&pool), Err(PoolError::InvalidState));
    assert_eq!(pool.borrow().idle_count(), 0);
    let overflow = lease(&pool);
    let second = lease(&pool);
    drop(overflow);
    drop(second);
    assert_eq!(pool.borrow().idle_count(), 1);
}
