//! The lock that keeps callers from passing the queue.
//!
//! Who holds the lock at a time is shared between tasks, so a contract cannot name it. That an
//! access was given back can be named: outside this module the records below change only where an
//! access is had or given back. The account of a caller comes from a function that does not unwind,
//! and so asks for no access itself.

use std::sync::Arc;
use tokio::sync::{RwLock, RwLockReadGuard, RwLockWriteGuard, TryLockError};
use vstd::prelude::*;
use crate::quota::FastQuota;

verus! {

/// A lock with many readers or one writer.
#[verifier::external_type_specification]
#[verifier::external_body]
#[verifier::reject_recursive_types(T)]
pub struct ExRwLock<T: ?Sized>(RwLock<T>);

/// Read access to an `RwLock`.
#[verifier::external_type_specification]
#[verifier::external_body]
#[verifier::reject_recursive_types(T)]
pub struct ExRwLockReadGuard<'a, T: ?Sized>(RwLockReadGuard<'a, T>);

/// Write access to an `RwLock`.
#[verifier::external_type_specification]
#[verifier::external_body]
#[verifier::reject_recursive_types(T)]
pub struct ExRwLockWriteGuard<'a, T: ?Sized>(RwLockWriteGuard<'a, T>);

/// That an `RwLock` could not be had at once.
#[verifier::external_type_specification]
#[verifier::external_body]
pub struct ExTryLockError(TryLockError);

/// The right to let callers read under a lock. There is one for each lock.
pub struct ReadRight {
    lock: Ghost<RwLock<()>>,
}

impl ReadRight {
    /// The lock.
    pub closed spec fn lock(self) -> RwLock<()> {
        self.lock@
    }
}

/// Calls `tokio::sync::RwLock::new`. The lock comes unlocked; who holds it later is shared between
/// tasks and has no name. With it comes the one right to let callers read under it.
#[verifier::external_body]
pub(crate) fn new_lock() -> (parts: (RwLock<()>, ReadRight))
    ensures
        parts.1.lock() == parts.0,
{
    let lock = RwLock::new(());
    let record = Ghost(lock);
    (lock, ReadRight { lock: record })
}

/// Read access to a lock, held until it is dropped. `try_read` is the only way to come by one.
pub struct ReadAccess<'a> {
    guard: RwLockReadGuard<'a, ()>,
    lock: Ghost<RwLock<()>>,
}

impl<'a> ReadAccess<'a> {
    /// The lock.
    pub closed spec fn lock(self) -> RwLock<()> {
        self.lock@
    }
}

/// The record that read access to a lock could not be had at once. `try_read` is the only way to
/// come by one.
pub struct Busy {
    error: TryLockError,
    lock: Ghost<RwLock<()>>,
}

impl Busy {
    /// The lock.
    pub closed spec fn lock(self) -> RwLock<()> {
        self.lock@
    }
}

/// How many read accesses to a lock were had and not given back yet, and how often one was asked
/// for.
pub struct ReadHolds {
    lock: Ghost<RwLock<()>>,
    asked: Ghost<nat>,
    count: Ghost<nat>,
}

impl View for ReadHolds {
    type V = nat;

    closed spec fn view(&self) -> nat {
        self.count@
    }
}

impl ReadHolds {
    /// The lock.
    pub closed spec fn lock(self) -> RwLock<()> {
        self.lock@
    }

    /// How often access was asked for.
    pub closed spec fn asked(self) -> nat {
        self.asked@
    }

    /// The account of a new caller of `quota`, who has had no access and has asked for none.
    pub(crate) fn of_caller(quota: &Arc<FastQuota>) -> (holds: ReadHolds)
        ensures
            holds.lock() == quota.lock(),
            holds.asked() == 0,
            holds@ == 0,
        no_unwind
    {
        let right = quota.read_right();
        ReadHolds { lock: right.lock, asked: Ghost(0), count: Ghost(0) }
    }
}

/// Calls `tokio::sync::RwLock::try_read` on `lock`. Whether access is had depends on who else has
/// it, so nothing is said of that. The call, and an access that is had, are counted in `holds`.
#[verifier::external_body]
pub(crate) fn try_read<'a>(lock: &'a RwLock<()>, holds: &mut ReadHolds) -> (access: Result<
    ReadAccess<'a>,
    Busy,
>)
    requires
        old(holds).lock() == *lock,
    ensures
        final(holds).lock() == old(holds).lock(),
        final(holds).asked() == old(holds).asked() + 1,
        match access {
            Ok(granted) => granted.lock() == *lock && final(holds)@ == old(holds)@ + 1,
            Err(busy) => busy.lock() == *lock && final(holds)@ == old(holds)@,
        },
{
    holds.asked = Ghost((holds.asked@ + 1) as nat);
    match lock.try_read() {
        Ok(guard) => {
            holds.count = Ghost((holds.count@ + 1) as nat);
            Ok(ReadAccess { guard, lock: Ghost(*lock) })
        },
        Err(error) => Err(Busy { error, lock: Ghost(*lock) }),
    }
}

/// Drops the guard of `access`: `Drop` of `tokio::sync::RwLockReadGuard` gives the access back. It
/// is taken off the count in `holds`.
#[verifier::external_body]
pub(crate) fn release_read(access: ReadAccess<'_>, holds: &mut ReadHolds)
    requires
        old(holds).lock() == access.lock(),
        old(holds)@ > 0,
    ensures
        final(holds).lock() == old(holds).lock(),
        final(holds).asked() == old(holds).asked(),
        final(holds)@ == old(holds)@ - 1,
{
    holds.count = Ghost((holds.count@ - 1) as nat);
    std::mem::drop(access.guard);
}

/// The write accesses that were given back, in order.
pub struct ReleaseLog<'a> {
    guards: Ghost<Seq<RwLockWriteGuard<'a, ()>>>,
}

impl<'a> View for ReleaseLog<'a> {
    type V = Seq<RwLockWriteGuard<'a, ()>>;

    closed spec fn view(&self) -> Seq<RwLockWriteGuard<'a, ()>> {
        self.guards@
    }
}

impl<'a> ReleaseLog<'a> {
    /// A record without an entry.
    pub(crate) fn new() -> (log: ReleaseLog<'a>)
        ensures
            log@ == Seq::<RwLockWriteGuard<'a, ()>>::empty(),
    {
        ReleaseLog { guards: Ghost(Seq::empty()) }
    }
}

/// Drops `guard`: `Drop` of `tokio::sync::RwLockWriteGuard` gives the write access back. The guard
/// is entered in `log`.
#[verifier::external_body]
pub(crate) fn release_write<'a>(guard: RwLockWriteGuard<'a, ()>, log: &mut ReleaseLog<'a>)
    ensures
        final(log)@ == old(log)@.push(guard),
{
    log.guards = Ghost(log.guards@.push(guard));
    std::mem::drop(guard);
}

/// What is said of an access, of the right to let others have one and of an account is said of what
/// stands in them.
proof fn law_lock_accounts<'a>(
    access: ReadAccess<'a>,
    busy: Busy,
    right: ReadRight,
    holds: ReadHolds,
    log: ReleaseLog<'a>,
)
    ensures
        access.lock() == access.lock@,
        busy.lock() == busy.lock@,
        right.lock() == right.lock@,
        holds.lock() == holds.lock@,
        holds.asked() == holds.asked@,
        holds@ == holds.count@,
        log@ == log.guards@,
{
}

} // verus!
