//! Connection pool for cooperative tasks: the idle store is an unbounded
//! multi-producer multi-consumer channel, so neither an acquire nor a return
//! ever waits for another task.
//!
//! Dialing is the one step that suspends, and it belongs to the caller. An
//! acquire is therefore taken in two moves: [`Pool::get_connection`] either
//! leases an idle connection or answers [`Acquire::Dial`]; the caller then
//! awaits [`Connect::connect`] and hands the outcome to [`Pool::adopt`].
//!
//! What the channel holds at any moment depends on every task that shares
//! the pool. The contracts therefore speak of leases, and of what an acquire
//! makes of what the channel gave it, not of the channel's contents.

use crossbeam_channel::Receiver;
use crossbeam_channel::Sender;
use std::future::Future;
use vstd::prelude::*;

verus! {

/// `crossbeam_channel::Sender`, opaque to the verifier.
#[verifier::external_type_specification]
#[verifier::external_body]
#[verifier::reject_recursive_types(T)]
pub struct ExSender<T>(Sender<T>);

/// `crossbeam_channel::Receiver`, opaque to the verifier.
#[verifier::external_type_specification]
#[verifier::external_body]
#[verifier::reject_recursive_types(T)]
pub struct ExReceiver<T>(Receiver<T>);

/// `crossbeam_channel::unbounded` creates a channel without a capacity
/// limit and returns its two ends.
pub assume_specification<T>[ crossbeam_channel::unbounded::<T> ]() -> (ends: (
    Sender<T>,
    Receiver<T>,
))
;

/// `Receiver::try_recv`: takes a message if one is waiting and never blocks.
/// `None` stands for both of its errors, an empty and a disconnected
/// channel. Which of the two answers comes depends on what other tasks have
/// sent and received, so neither is promised.
#[verifier::external_body]
fn try_recv<C>(rx: &Receiver<C>) -> (conn: Option<C>) {
    match rx.try_recv() {
        Ok(conn) => Some(conn),
        Err(_) => None,
    }
}

/// `Sender::send` on an unbounded channel: enqueues without blocking. If
/// every receiver is gone the message comes back inside the error and is
/// dropped here. The unbounded flavor always finds a slot, so the call does
/// not unwind.
#[verifier::external_body]
fn send_back<C>(tx: &Sender<C>, conn: C)
    opens_invariants none
    no_unwind
{
    let _ = tx.send(conn);
}

/// `Sender::clone`: one more sending end of the same channel. A sending end
/// is nothing to the verifier but the channel it feeds, so the clone equals
/// the end it was made from.
#[verifier::external_body]
fn another<C>(tx: &Sender<C>) -> (twin: Sender<C>)
    ensures
        twin == *tx,
{
    tx.clone()
}

/// `Receiver::len`: the number of messages in the channel at some moment
/// during the call.
#[verifier::external_body]
fn queued<C>(rx: &Receiver<C>) -> (n: usize) {
    rx.len()
}

/// How the pool's user establishes one new connection when no idle one is
/// at hand.
pub trait Connect: Sized {
    type Err;

    type Dial: Future<Output = Result<Self, Self::Err>> + Send;

    fn connect() -> Self::Dial;
}

/// A pool of connections of one kind, shared between tasks by reference.
#[verifier::reject_recursive_types(C)]
pub struct Pool<C> {
    rx: Receiver<C>,
    tx: Sender<C>,
}

/// Exclusive use of one connection. Dropping the lease returns the
/// connection to the pool it came from; [`Lease::purge`] discards it.
#[verifier::reject_recursive_types(C)]
pub struct Lease<C> {
    conn: Option<C>,
    tx: Sender<C>,
}

/// The outcome of the non-blocking half of an acquire.
#[verifier::reject_recursive_types(C)]
pub enum Acquire<C> {
    /// An idle connection was waiting; the connector is not needed.
    Leased(Lease<C>),
    /// The store was empty: dial, then call [`Pool::adopt`].
    Dial,
}

impl<C> View for Lease<C> {
    type V = Option<C>;

    /// The leased connection: present while the lease is held, absent once it
    /// has been returned or purged.
    closed spec fn view(&self) -> Option<C> {
        self.conn
    }
}

impl<C> Lease<C> {
    /// The sending end through which this lease returns its connection.
    pub closed spec fn home(&self) -> Sender<C> {
        self.tx
    }

    /// Discards the connection: it is dropped here and the idle store never
    /// sees it again.
    pub fn purge(self) {
        let mut lease = self;
        lease.conn = None;
    }

    /// Whether the lease still has its connection. Every lease a pool hands
    /// out has.
    pub fn holds(&self) -> (held: bool)
        ensures
            held == (self@ is Some),
    {
        match &self.conn {
            Some(_) => true,
            None => false,
        }
    }

    /// The leased connection.
    pub fn get(&self) -> (conn: &C)
        requires
            self@ is Some,
        ensures
            Some(*conn) == self@,
    {
        match &self.conn {
            Some(conn) => conn,
            None => vstd::pervasive::unreached(),
        }
    }

    /// The leased connection, for use. What the caller leaves in it is what
    /// the lease holds from then on.
    pub fn get_mut(&mut self) -> (conn: &mut C)
        requires
            old(self)@ is Some,
        ensures
            Some(*conn) == old(self)@,
            final(self)@ == Some(*final(conn)),
            final(self).home() == old(self).home(),
    {
        match &mut self.conn {
            Some(conn) => conn,
            None => vstd::pervasive::unreached(),
        }
    }

    /// Sends the connection, if the lease still has it, back to the idle
    /// store. The lease is empty afterwards, so a second call sends nothing.
    fn give_back(&mut self)
        ensures
            final(self)@ is None,
            final(self).home() == old(self).home(),
        opens_invariants none
        no_unwind
    {
        let mut held: Option<C> = None;
        core::mem::swap(&mut held, &mut self.conn);
        match held {
            Some(conn) => {
                send_back(&self.tx, conn);
            },
            None => {},
        }
    }
}

/// The end of a lease: the connection goes back to the idle store, unless
/// the lease was purged and has none.
impl<C> Drop for Lease<C> {
    fn drop(&mut self)
        ensures
            final(self)@ is None,
            final(self).home() == old(self).home(),
        opens_invariants none
        no_unwind
    {
        self.give_back();
    }
}

impl<C: Connect> Pool<C> {
    /// The sending end of this pool's idle store.
    pub closed spec fn store(&self) -> Sender<C> {
        self.tx
    }

    /// A pool with an empty idle store.
    pub fn new() -> (pool: Self) {
        let (tx, rx) = crossbeam_channel::unbounded();
        Pool { rx, tx }
    }

    /// Number of idle connections at some moment during the call.
    pub fn idle_len(&self) -> (n: usize) {
        queued(&self.rx)
    }

    /// A lease of this pool on `conn`.
    fn lease(&self, conn: C) -> (lease: Lease<C>)
        ensures
            lease@ == Some(conn),
            lease.home() == self.store(),
    {
        Lease { conn: Some(conn), tx: another(&self.tx) }
    }

    /// Decides an acquire once the idle store has been tried: an idle
    /// connection is leased as it is, a miss asks for a dial.
    pub fn checkout(&self, idle: Option<C>) -> (step: Acquire<C>)
        ensures
            match idle {
                Some(conn) => step matches Acquire::Leased(lease) && lease@ == Some(conn)
                    && lease.home() == self.store(),
                None => step is Dial,
            },
    {
        match idle {
            Some(conn) => Acquire::Leased(self.lease(conn)),
            None => Acquire::Dial,
        }
    }

    /// The non-blocking half of an acquire: leases an idle connection if one
    /// is waiting at this moment and asks for a dial otherwise. It never
    /// waits for a connection to be returned.
    pub fn get_connection(&self) -> (step: Acquire<C>)
        ensures
            step matches Acquire::Leased(lease) ==> lease@ is Some && lease.home() == self.store(),
    {
        let idle = try_recv(&self.rx);
        self.checkout(idle)
    }

    /// The second half of an acquire that had to dial: a new connection
    /// becomes a lease of this pool, a failure is passed on untouched.
    pub fn adopt(&self, dialed: Result<C, C::Err>) -> (r: Result<Lease<C>, C::Err>)
        ensures
            match dialed {
                Ok(conn) => r matches Ok(lease) && lease@ == Some(conn) && lease.home()
                    == self.store(),
                Err(e) => r == Err::<Lease<C>, C::Err>(e),
            },
    {
        match dialed {
            Ok(conn) => Ok(self.lease(conn)),
            Err(e) => Err(e),
        }
    }
}

} // verus!
