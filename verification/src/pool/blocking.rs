//! Connection pool for threads that may block: the idle store is a stack
//! behind a mutex, and a lease puts its connection back when it is dropped.
//!
//! The stack is intrusive. Every connection travels inside a heap-allocated
//! [`Slot`] that also holds the link to the slot beneath it, so putting a
//! connection back is a pointer swap that neither allocates nor fails.
//!
//! [`IdleStack`] is the store on its own, with exact contracts, and the
//! lemmas at the end of this file say what follows from them for any run of
//! acquires and returns. [`Pool`] shares one such store between threads.
//! What the store holds at any moment then depends on all of them, so the
//! contracts of [`Pool`] and [`Lease`] speak of leases, and of what an
//! acquire makes of what the store gave it.

use std::sync::Arc;
use std::sync::Mutex;
use std::sync::MutexGuard;
use vstd::prelude::*;

verus! {

/// `std::sync::Mutex`, opaque to the verifier.
#[verifier::external_type_specification]
#[verifier::external_body]
#[verifier::reject_recursive_types(T)]
pub struct ExMutex<T: ?Sized>(Mutex<T>);

/// `std::sync::MutexGuard`, opaque to the verifier.
#[verifier::external_type_specification]
#[verifier::external_body]
#[verifier::reject_recursive_types(T)]
pub struct ExMutexGuard<'a, T: ?Sized + 'a>(MutexGuard<'a, T>);

/// `Mutex::new` wraps a value in a fresh, unlocked mutex. Nothing is claimed
/// of the mutex: what it guards is only ever reached through a guard.
pub assume_specification<T>[ Mutex::<T>::new ](t: T) -> (m: Mutex<T>)
;

/// How the pool establishes one new connection when no idle one is at hand.
pub trait Connect: Sized {
    type Err;

    fn connect() -> Result<Self, Self::Err>;
}

/// A connection together with the link that lets it rest in an
/// [`IdleStack`] without any further allocation.
pub struct Slot<C> {
    conn: C,
    next: Option<Box<Slot<C>>>,
}

impl<C> View for Slot<C> {
    type V = C;

    /// The connection the slot carries.
    closed spec fn view(&self) -> C {
        self.conn
    }
}

impl<C> Slot<C> {
    /// The connections reachable from `link`, oldest first: the slot that
    /// `link` points at comes last.
    pub closed spec fn chain(link: Option<Box<Slot<C>>>) -> Seq<C>
        decreases link,
    {
        match link {
            None => Seq::empty(),
            Some(slot) => Self::chain(slot.next).push(slot.conn),
        }
    }

    /// Boxes `conn` into a slot of its own.
    pub fn new(conn: C) -> (slot: Box<Slot<C>>)
        ensures
            slot@ == conn,
    {
        Box::new(Slot { conn, next: None })
    }

    /// The connection in the slot.
    pub fn get(&self) -> (conn: &C)
        ensures
            *conn == self@,
    {
        &self.conn
    }

    /// The connection in the slot, for use.
    pub fn get_mut(&mut self) -> (conn: &mut C)
        ensures
            *conn == old(self)@,
            final(self)@ == *final(conn),
    {
        &mut self.conn
    }

    /// Gives the connection up, dropping whatever was still linked below it.
    pub fn into_inner(self) -> (conn: C)
        ensures
            conn == self@,
    {
        self.conn
    }
}

/// What an acquire finds on top of the idle connections `idle`, if anything.
pub open spec fn top<C>(idle: Seq<C>) -> Option<C> {
    if idle.len() > 0 {
        Some(idle.last())
    } else {
        None
    }
}

/// The idle connections left after one acquire.
pub open spec fn popped<C>(idle: Seq<C>) -> Seq<C> {
    if idle.len() > 0 {
        idle.drop_last()
    } else {
        idle
    }
}

/// The idle connections once a lease that held `held` has ended.
pub open spec fn settled<C>(idle: Seq<C>, held: Option<C>) -> Seq<C> {
    match held {
        Some(conn) => idle.push(conn),
        None => idle,
    }
}

/// The idle connections after `n` acquires in a row.
pub open spec fn popped_n<C>(idle: Seq<C>, n: nat) -> Seq<C>
    decreases n,
{
    if n == 0 {
        idle
    } else {
        popped(popped_n(idle, (n - 1) as nat))
    }
}

/// The idle store: the connections not leased to anyone, most recently
/// returned last. It is unbounded and keeps no record beside the
/// connections themselves.
pub struct IdleStack<C> {
    head: Option<Box<Slot<C>>>,
}

impl<C> View for IdleStack<C> {
    type V = Seq<C>;

    closed spec fn view(&self) -> Seq<C> {
        Slot::chain(self.head)
    }
}

impl<C> IdleStack<C> {
    /// A store with no connection in it.
    pub fn new() -> (stack: Self)
        ensures
            stack@ == Seq::<C>::empty(),
    {
        IdleStack { head: None }
    }

    /// Number of idle connections, saturating at `usize::MAX`.
    pub fn len(&self) -> (n: usize)
        ensures
            n == if self@.len() <= usize::MAX { self@.len() } else { usize::MAX as nat },
    {
        let mut n: usize = 0;
        let mut link = &self.head;
        loop
            invariant
                n + Slot::chain(*link).len() == self@.len() || (n == usize::MAX && self@.len()
                    > usize::MAX),
                n <= usize::MAX,
            decreases Slot::chain(*link).len(),
        {
            match link {
                None => {
                    return n;
                },
                Some(slot) => {
                    if n < usize::MAX {
                        n = n + 1;
                    }
                    link = &slot.next;
                },
            }
        }
    }

    /// Removes the most recently returned connection, if there is one.
    pub fn take(&mut self) -> (slot: Option<Box<Slot<C>>>)
        ensures
            slot is Some <==> old(self)@.len() > 0,
            slot matches Some(s) ==> top(old(self)@) == Some(s@),
            final(self)@ == popped(old(self)@),
        opens_invariants none
        no_unwind
    {
        let mut head: Option<Box<Slot<C>>> = None;
        core::mem::swap(&mut head, &mut self.head);
        match head {
            None => None,
            Some(mut slot) => {
                core::mem::swap(&mut self.head, &mut slot.next);
                Some(slot)
            },
        }
    }

    /// Puts a connection on top.
    pub fn put(&mut self, slot: Box<Slot<C>>)
        ensures
            final(self)@ == old(self)@.push(slot@),
        opens_invariants none
        no_unwind
    {
        let mut slot = slot;
        slot.next = None;
        core::mem::swap(&mut self.head, &mut slot.next);
        let mut head: Option<Box<Slot<C>>> = Some(slot);
        core::mem::swap(&mut self.head, &mut head);
    }

    /// Ends a lease: the connection in `held`, if it still holds one,
    /// goes back on top, and `held` is left empty. Called again on the same
    /// `held` it changes nothing.
    pub fn settle(&mut self, held: &mut Option<Box<Slot<C>>>)
        ensures
            final(self)@ == settled(old(self)@, holding(*old(held))),
            *final(held) is None,
        opens_invariants none
        no_unwind
    {
        let mut leaving: Option<Box<Slot<C>>> = None;
        core::mem::swap(&mut leaving, held);
        match leaving {
            Some(slot) => {
                self.put(slot);
            },
            None => {},
        }
    }
}

/// Dropping the store drops the idle connections one at a time, the most
/// recently returned first, however many there are.
impl<C> Drop for IdleStack<C> {
    fn drop(&mut self)
        opens_invariants none
        no_unwind
    {
        loop
            decreases self@.len(),
        {
            match self.take() {
                Some(_) => {},
                None => {
                    break ;
                },
            }
        }
    }
}

/// The connection in a lease's hands, if it still has one.
pub open spec fn holding<C>(held: Option<Box<Slot<C>>>) -> Option<C> {
    match held {
        Some(slot) => Some(slot@),
        None => None,
    }
}

/// Locks the idle store with `Mutex::lock`. `None` stands for a poisoned
/// lock; the poison error and the guard inside it are dropped. `lock`
/// blocks until the store is free and is documented to panic or deadlock
/// only when the calling thread already holds the lock, which this module
/// rules out by never keeping a guard past the function that took it.
#[verifier::external_body]
fn lock_store<'a, C>(store: &'a Mutex<IdleStack<C>>) -> (guard: Option<
    MutexGuard<'a, IdleStack<C>>,
>)
    opens_invariants none
    no_unwind
{
    match store.lock() {
        Ok(guard) => Some(guard),
        Err(_) => None,
    }
}

/// The store behind a guard, through `MutexGuard`'s `DerefMut`. What the
/// store holds at that moment depends on the other threads, so nothing is
/// claimed of it.
#[verifier::external_body]
fn guarded<'a, 'b, C>(guard: &'a mut MutexGuard<'b, IdleStack<C>>) -> (store: &'a mut IdleStack<C>)
    opens_invariants none
    no_unwind
{
    &mut **guard
}

/// A pool of connections of one kind, shared between threads by reference.
#[verifier::reject_recursive_types(C)]
pub struct Pool<C> {
    pool: Arc<Mutex<IdleStack<C>>>,
}

/// Exclusive use of one connection. Dropping the lease returns the
/// connection to the pool it came from; [`Lease::purge`] discards it.
#[verifier::reject_recursive_types(C)]
pub struct Lease<C> {
    conn: Option<Box<Slot<C>>>,
    pool: Arc<Mutex<IdleStack<C>>>,
}

impl<C> View for Lease<C> {
    type V = Option<C>;

    /// The leased connection: present while the lease is held, absent once it
    /// has been returned or purged.
    closed spec fn view(&self) -> Option<C> {
        holding(self.conn)
    }
}

impl<C> Lease<C> {
    /// The store this lease returns its connection to.
    pub closed spec fn home(&self) -> Arc<Mutex<IdleStack<C>>> {
        self.pool
    }

    /// Discards the connection: it is dropped here and the idle store never
    /// sees it again.
    pub fn purge(self) {
        let mut lease = self;
        lease.conn = None;
    }

    /// Whether the lease still has its connection. Every lease a pool hands
    /// out has.
    pub fn holds(&self) -> (held: bool)
        ensures
            held == (self@ is Some),
    {
        match &self.conn {
            Some(_) => true,
            None => false,
        }
    }

    /// The leased connection.
    pub fn get(&self) -> (conn: &C)
        requires
            self@ is Some,
        ensures
            Some(*conn) == self@,
    {
        match &self.conn {
            Some(slot) => slot.get(),
            None => vstd::pervasive::unreached(),
        }
    }

    /// The leased connection, for use. What the caller leaves in it is what
    /// the lease holds from then on.
    pub fn get_mut(&mut self) -> (conn: &mut C)
        requires
            old(self)@ is Some,
        ensures
            Some(*conn) == old(self)@,
            final(self)@ == Some(*final(conn)),
            final(self).home() == old(self).home(),
    {
        match &mut self.conn {
            Some(slot) => slot.get_mut(),
            None => vstd::pervasive::unreached(),
        }
    }

    /// Returns the connection, if the lease still has it, to the idle store.
    /// The lease is empty afterwards, so a second call returns nothing. A
    /// poisoned lock loses the connection instead.
    fn give_back(&mut self)
        ensures
            final(self)@ is None,
            final(self).home() == old(self).home(),
        opens_invariants none
        no_unwind
    {
        let mut held: Option<Box<Slot<C>>> = None;
        core::mem::swap(&mut held, &mut self.conn);
        match &held {
            Some(_) => {
                match lock_store(&self.pool) {
                    Some(mut guard) => {
                        let store = guarded(&mut guard);
                        store.settle(&mut held);
                    },
                    None => {},
                }
            },
            None => {},
        }
    }
}

/// The end of a lease: the connection goes back to the idle store, unless
/// the lease was purged and has none.
impl<C> Drop for Lease<C> {
    fn drop(&mut self)
        ensures
            final(self)@ is None,
            final(self).home() == old(self).home(),
        opens_invariants none
        no_unwind
    {
        self.give_back();
    }
}

impl<C: Connect> Pool<C> {
    /// The store this pool hands connections out of.
    pub closed spec fn store(&self) -> Arc<Mutex<IdleStack<C>>> {
        self.pool
    }

    /// A pool with an empty idle store.
    pub fn new() -> (pool: Self) {
        Pool { pool: Arc::new(Mutex::new(IdleStack::new())) }
    }

    /// Number of idle connections at the moment of the call.
    pub fn idle_len(&self) -> (n: usize) {
        match lock_store(&self.pool) {
            Some(mut guard) => {
                let store = guarded(&mut guard);
                store.len()
            },
            None => 0,
        }
    }

    /// Pops the idle store. The lock is held for the pop alone.
    fn take_idle(&self) -> (slot: Option<Box<Slot<C>>>) {
        match lock_store(&self.pool) {
            Some(mut guard) => {
                let store = guarded(&mut guard);
                store.take()
            },
            None => None,
        }
    }

    /// A lease of this pool on `slot`.
    fn lease(&self, slot: Box<Slot<C>>) -> (lease: Lease<C>)
        ensures
            lease@ == Some(slot@),
            lease.home() == self.store(),
    {
        Lease { conn: Some(slot), pool: self.pool.clone() }
    }

    /// Wraps what the connector returned: a new connection becomes a lease
    /// of this pool, a failure is passed on untouched.
    pub fn adopt(&self, dialed: Result<C, C::Err>) -> (r: Result<Lease<C>, C::Err>)
        ensures
            match dialed {
                Ok(conn) => r matches Ok(lease) && lease@ == Some(conn) && lease.home()
                    == self.store(),
                Err(e) => r == Err::<Lease<C>, C::Err>(e),
            },
    {
        match dialed {
            Ok(conn) => Ok(self.lease(Slot::new(conn))),
            Err(e) => Err(e),
        }
    }

    /// Decides an acquire once the idle store has been popped: an idle
    /// connection is leased as it is, the connector left alone; a miss dials.
    pub fn checkout(&self, idle: Option<Box<Slot<C>>>) -> (r: Result<Lease<C>, C::Err>)
        ensures
            idle matches Some(slot) ==> self.leases(r, slot@),
            idle is None ==> self.dials(r),
    {
        match idle {
            Some(slot) => Ok(self.lease(slot)),
            None => self.adopt(C::connect()),
        }
    }

    /// Leases an idle connection if the store has one at this moment, a
    /// newly dialed one otherwise. The connector runs without the lock, and
    /// a failure is the connector's own, passed on as it came.
    pub fn get_connection(&self) -> (r: Result<Lease<C>, C::Err>)
        ensures
            r matches Ok(lease) ==> lease@ is Some && lease.home() == self.store(),
            r is Err ==> self.dials(r),
    {
        let idle = self.take_idle();
        self.checkout(idle)
    }

    /// Whether `r` is a lease of this pool on `conn`.
    pub open spec fn leases(&self, r: Result<Lease<C>, C::Err>, conn: C) -> bool {
        r matches Ok(lease) && lease@ == Some(conn) && lease.home() == self.store()
    }

    /// Whether `r` is what an acquire that dialed returns: a lease of this
    /// pool on the connection the connector established, or the connector's
    /// failure as the connector returned it.
    pub open spec fn dials(&self, r: Result<Lease<C>, C::Err>) -> bool {
        exists|dialed: Result<C, C::Err>| #[trigger]
            C::connect.ensures((), dialed) && match dialed {
                Ok(conn) => self.leases(r, conn),
                Err(e) => r == Err::<Lease<C>, C::Err>(e),
            }
    }
}

/// With `n` connections idle, the next `n` acquires are each served from the
/// store, most recently returned first, and the one after them finds it
/// empty.
pub proof fn lemma_idle_serves_every_acquire<C>(idle: Seq<C>, k: nat)
    requires
        k <= idle.len(),
    ensures
        popped_n(idle, k) == idle.take(idle.len() - k),
        k < idle.len() ==> top(popped_n(idle, k)) == Some(idle[idle.len() - 1 - k]),
        k == idle.len() ==> top(popped_n(idle, k)) is None,
    decreases k,
{
    if k > 0 {
        lemma_idle_serves_every_acquire(idle, (k - 1) as nat);
    }
}

/// A connection returned by a lease is the one the next acquire gets, and
/// that acquire leaves the store as it was before the return.
pub proof fn lemma_returned_is_next<C>(idle: Seq<C>, conn: C)
    ensures
        top(settled(idle, Some(conn))) == Some(conn),
        popped(settled(idle, Some(conn))) == idle,
{
}

/// Leasing an idle connection and returning it leaves the store exactly as
/// it was; returning a connection that was dialed grows it by that one.
pub proof fn lemma_lease_round_trip<C>(idle: Seq<C>, dialed: C)
    ensures
        idle.len() > 0 ==> settled(popped(idle), top(idle)) == idle,
        settled(idle, Some(dialed)).len() == idle.len() + 1,
{
}

/// A lease ends once: after it has settled it holds nothing, and settling
/// what is left changes nothing. A purged lease holds nothing either, so its
/// end leaves the store untouched.
pub proof fn lemma_settles_once<C>(idle: Seq<C>, held: Option<C>)
    ensures
        settled(settled(idle, held), None) == settled(idle, held),
        settled(idle, None::<C>) == idle,
        held is Some ==> settled(idle, held).len() == idle.len() + 1,
{
}

/// One step of a store's life: an acquire, or the end of a lease holding
/// the given connection.
pub enum StoreOp<C> {
    Acquire,
    Return(C),
}

/// The idle connections after `ops` have run in order.
pub open spec fn run<C>(idle: Seq<C>, ops: Seq<StoreOp<C>>) -> Seq<C>
    decreases ops.len(),
{
    if ops.len() == 0 {
        idle
    } else {
        match ops.last() {
            StoreOp::Acquire => popped(run(idle, ops.drop_last())),
            StoreOp::Return(conn) => settled(run(idle, ops.drop_last()), Some(conn)),
        }
    }
}

/// A connection that is not idle does not become idle unless it is
/// returned.
proof fn lemma_absent_stays_absent<C>(idle: Seq<C>, ops: Seq<StoreOp<C>>, conn: C)
    requires
        !idle.contains(conn),
        forall|i: int| 0 <= i < ops.len() ==> ops[i] != StoreOp::Return(conn),
    ensures
        !run(idle, ops).contains(conn),
    decreases ops.len(),
{
    if ops.len() > 0 {
        lemma_absent_stays_absent(idle, ops.drop_last(), conn);
    }
}

/// While its lease is alive, or once it has been purged, a connection is
/// out of the store: as long as nobody returns it, then whatever else is
/// acquired and returned, the store never holds it and no acquire is served
/// with it.
pub proof fn lemma_absent_until_returned<C>(idle: Seq<C>, ops: Seq<StoreOp<C>>, conn: C)
    requires
        !idle.contains(conn),
        forall|i: int| 0 <= i < ops.len() ==> ops[i] != StoreOp::Return(conn),
    ensures
        forall|n: int|
            0 <= n <= ops.len() ==> !(#[trigger] run(idle, ops.take(n))).contains(conn) && top(
                run(idle, ops.take(n)),
            ) != Some(conn),
{
    assert forall|n: int| 0 <= n <= ops.len() implies !(#[trigger] run(idle, ops.take(n))).contains(
        conn,
    ) && top(run(idle, ops.take(n))) != Some(conn) by {
        lemma_absent_stays_absent(idle, ops.take(n), conn);
    }
}

/// An acquire takes the connection out of the store: where no connection is
/// idle twice, the one just leased is not idle any more.
pub proof fn lemma_leased_is_not_idle<C>(idle: Seq<C>)
    requires
        idle.no_duplicates(),
        idle.len() > 0,
    ensures
        !popped(idle).contains(idle.last()),
        popped(idle).no_duplicates(),
{
}

} // verus!
