use echo_service::pool::asynchronous::Acquire;
use echo_service::pool::asynchronous::Connect;
use echo_service::pool::asynchronous::Lease;
use echo_service::pool::asynchronous::Pool;
use std::future::Ready;

#[derive(Debug, PartialEq)]
struct Tagged {
    tag: u32,
}

impl Connect for Tagged {
    type Err = String;
    type Dial = Ready<Result<Self, Self::Err>>;

    fn connect() -> Self::Dial {
        std::future::ready(Ok(Tagged { tag: 0 }))
    }
}

#[derive(Debug)]
struct Unreachable;

impl Connect for Unreachable {
    type Err = String;
    type Dial = Ready<Result<Self, Self::Err>>;

    fn connect() -> Self::Dial {
        std::future::ready(Err(String::from("connection refused")))
    }
}

fn wait<C: Connect>(dial: C::Dial) -> Result<C, C::Err> {
    let runtime = tokio::runtime::Builder::new_current_thread().build().unwrap();
    runtime.block_on(dial)
}

/// An acquire as a task performs it: try the store, dial on a miss.
fn acquire<C: Connect>(pool: &Pool<C>) -> Result<Lease<C>, C::Err> {
    match pool.get_connection() {
        Acquire::Leased(lease) => Ok(lease),
        Acquire::Dial => pool.adopt(wait::<C>(C::connect())),
    }
}

fn lease_tagged(pool: &Pool<Tagged>, tag: u32) -> Lease<Tagged> {
    let mut lease = acquire(pool).unwrap();
    lease.get_mut().tag = tag;
    lease
}

#[test]
fn empty_store_asks_for_a_dial() {
    let pool: Pool<Tagged> = Pool::new();
    assert_eq!(pool.idle_len(), 0);
    assert!(matches!(pool.get_connection(), Acquire::Dial));
    assert!(matches!(pool.checkout(None), Acquire::Dial));
}

#[test]
fn dialed_connection_is_leased_and_returned_on_drop() {
    let pool: Pool<Tagged> = Pool::new();
    {
        let lease = acquire(&pool).unwrap();
        assert_eq!(lease.get().tag, 0);
        assert_eq!(pool.idle_len(), 0);
    }
    assert_eq!(pool.idle_len(), 1);
}

#[test]
fn idle_connection_is_leased_without_a_dial() {
    let pool: Pool<Tagged> = Pool::new();
    drop(lease_tagged(&pool, 8));
    match pool.get_connection() {
        Acquire::Leased(lease) => assert_eq!(lease.get().tag, 8),
        Acquire::Dial => panic!("dial with a connection idle"),
    }
}

#[test]
fn n_queued_connections_serve_n_acquires() {
    let pool: Pool<Tagged> = Pool::new();
    let a = lease_tagged(&pool, 1);
    let b = lease_tagged(&pool, 2);
    let c = lease_tagged(&pool, 3);
    drop(a);
    drop(b);
    drop(c);
    assert_eq!(pool.idle_len(), 3);
    let first = acquire(&pool).unwrap();
    let second = acquire(&pool).unwrap();
    let third = acquire(&pool).unwrap();
    assert_eq!(first.get().tag, 1);
    assert_eq!(second.get().tag, 2);
    assert_eq!(third.get().tag, 3);
    assert!(matches!(pool.get_connection(), Acquire::Dial));
}

#[test]
fn leased_connection_is_not_handed_out_again() {
    let pool: Pool<Tagged> = Pool::new();
    drop(lease_tagged(&pool, 11));
    let held = acquire(&pool).unwrap();
    assert_eq!(held.get().tag, 11);
    let other = acquire(&pool).unwrap();
    assert_eq!(other.get().tag, 0);
}

#[test]
fn purge_discards_the_connection() {
    let pool: Pool<Tagged> = Pool::new();
    drop(lease_tagged(&pool, 9));
    let lease = acquire(&pool).unwrap();
    assert_eq!(lease.get().tag, 9);
    lease.purge();
    assert_eq!(pool.idle_len(), 0);
    assert!(matches!(pool.get_connection(), Acquire::Dial));
}

#[test]
fn drop_pushes_back_exactly_once() {
    let pool: Pool<Tagged> = Pool::new();
    drop(lease_tagged(&pool, 1));
    drop(lease_tagged(&pool, 1));
    assert_eq!(pool.idle_len(), 1);
    let before = pool.idle_len();
    {
        let _lease = acquire(&pool).unwrap();
        assert_eq!(pool.idle_len(), before - 1);
    }
    assert_eq!(pool.idle_len(), before);
}

#[test]
fn failed_dial_is_passed_on_untouched() {
    let pool: Pool<Unreachable> = Pool::new();
    match acquire(&pool) {
        Ok(_) => panic!("a lease without a connection"),
        Err(e) => assert_eq!(e, "connection refused"),
    }
    assert_eq!(pool.idle_len(), 0);
}

#[test]
fn checkout_leases_what_the_store_gave() {
    let pool: Pool<Tagged> = Pool::new();
    match pool.checkout(Some(Tagged { tag: 4 })) {
        Acquire::Leased(lease) => assert_eq!(lease.get().tag, 4),
        Acquire::Dial => panic!("dial with a connection at hand"),
    }
    assert_eq!(pool.idle_len(), 1);
}

#[test]
fn lease_dropped_after_its_pool_loses_the_connection_quietly() {
    let pool: Pool<Tagged> = Pool::new();
    let lease = lease_tagged(&pool, 2);
    drop(pool);
    assert_eq!(lease.get().tag, 2);
    drop(lease);
}
