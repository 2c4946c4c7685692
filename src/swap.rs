//! Handles to a shared cell and the guard that a lock acquisition hands out.

use crate::slot::{replace_slot, slot_after_replace, slot_inner, slot_inner_box, slot_inner_mut};
use std::sync::{Arc, LockResult};
use vstd::prelude::*;

verus! {

/// parking_lot's raw lock, carried opaquely inside the mutex type.
#[verifier::external_type_specification]
#[verifier::external_body]
pub struct ExRawMutex(parking_lot::RawMutex);

/// lock_api's Mutex (parking_lot's `Mutex` with its raw lock filled in), carried
/// opaquely: nothing is assumed of what it holds.
#[verifier::external_type_specification]
#[verifier::external_body]
#[verifier::reject_recursive_types(R)]
#[verifier::reject_recursive_types(T)]
pub struct ExMutex<R, T: ?Sized>(parking_lot::lock_api::Mutex<R, T>);

/// std's PoisonError, which appears only in the error type of `lock_w`.
#[verifier::external_type_specification]
#[verifier::external_body]
#[verifier::reject_recursive_types(T)]
pub struct ExPoisonError<T>(std::sync::PoisonError<T>);

/// The boxed form in which a cell holds its value.
pub type OnTheFlySwapInner<T> = Box<T>;

/// A cloneable handle to one shared cell; every clone reaches the same cell.
#[verifier::reject_recursive_types(T)]
pub struct OnTheFlySwap<T: ?Sized> {
    inner: Arc<parking_lot::Mutex<Option<OnTheFlySwapInner<T>>>>,
}

/// parking_lot's guard over a locked cell's slot, held opaquely.
#[verifier::external_body]
#[verifier::reject_recursive_types(T)]
pub struct LockHold<'a, T: ?Sized> {
    hold: parking_lot::MutexGuard<'a, Option<Box<T>>>,
}

/// Exclusive access to a cell's slot, held until the guard is dropped.
///
/// Its view is what the slot holds. While the guard lives no other holder can
/// reach the slot, so the view changes only through this guard.
#[verifier::reject_recursive_types(T)]
pub struct MutexGuardRef<'a, T: ?Sized> {
    mutex_guard: LockHold<'a, T>,
    slot: Ghost<Option<Box<T>>>,
}

impl<'a, T: ?Sized> View for MutexGuardRef<'a, T> {
    type V = Option<Box<T>>;

    closed spec fn view(&self) -> Option<Box<T>> {
        self.slot@
    }
}

/// Relies on lock_api's Mutex::new: a new, unlocked mutex around `value`.
#[verifier::external_body]
fn new_mutex<T: ?Sized>(value: Option<Box<T>>) -> parking_lot::Mutex<Option<Box<T>>> {
    parking_lot::Mutex::new(value)
}

/// Relies on lock_api's Mutex::lock: blocks until this thread holds the mutex.
#[verifier::external_body]
fn lock_mutex<'a, T: ?Sized>(m: &'a parking_lot::Mutex<Option<Box<T>>>) -> MutexGuardRef<'a, T> {
    MutexGuardRef { mutex_guard: LockHold { hold: m.lock() }, slot: Ghost(arbitrary()) }
}

/// Relies on lock_api's MutexGuard::deref: the slot that the held mutex protects.
#[verifier::external_body]
fn guarded<'b, 'a, T: ?Sized>(g: &'b MutexGuardRef<'a, T>) -> (r: &'b Option<Box<T>>)
    ensures
        *r == g@,
{
    &*g.mutex_guard.hold
}

/// Relies on lock_api's MutexGuard::deref_mut: the slot that the held mutex
/// protects, mutably; what is written through it is what the slot holds.
#[verifier::external_body]
fn guarded_mut<'b, 'a, T: ?Sized>(g: &'b mut MutexGuardRef<'a, T>) -> (r: &'b mut Option<
    Box<T>,
>)
    ensures
        *r == old(g)@,
        final(g)@ == *final(r),
{
    &mut *g.mutex_guard.hold
}

/// The error of an operation that is declared but has no behaviour yet.
#[derive(Debug, PartialEq, Eq, Structural)]
pub struct Unimplemented;

impl<T: ?Sized> Clone for OnTheFlySwap<T> {
    /// Another handle to the same cell.
    fn clone(&self) -> (r: Self)
        ensures
            r == *self,
    {
        OnTheFlySwap { inner: Arc::clone(&self.inner) }
    }
}

impl<'a, T: ?Sized> MutexGuardRef<'a, T> {
    /// The value the slot holds, if any.
    pub fn inner(&self) -> (r: Option<&T>)
        ensures
            r.is_some() == self@.is_some(),
            r.is_some() ==> r.unwrap() == &*self@.unwrap(),
    {
        slot_inner(guarded(self))
    }

    /// The value the slot holds, if any, for mutation in place; what is
    /// written through it is what the slot holds afterwards.
    pub fn inner_mut(&mut self) -> (r: Option<&mut T>)
        ensures
            r.is_some() == old(self)@.is_some(),
            r.is_some() ==> &*r.unwrap() == &*old(self)@.unwrap(),
            r.is_some() ==> final(self)@.is_some(),
            r.is_some() ==> &*final(self)@.unwrap() == &*final(r.unwrap()),
            old(self)@.is_none() ==> final(self)@ == old(self)@,
    {
        slot_inner_mut(guarded_mut(self))
    }

    /// The box that holds the slot's value, if any.
    pub fn inner_box(&mut self) -> (r: Option<&Box<T>>)
        ensures
            r.is_some() == old(self)@.is_some(),
            r.is_some() ==> r.unwrap() == &old(self)@.unwrap(),
            final(self)@ == old(self)@,
    {
        slot_inner_box(guarded(self))
    }

    /// Stores `by` in the slot, dropping what it held; `None` clears it.
    pub fn replace(&mut self, by: Option<Box<T>>)
        ensures
            final(self)@ == slot_after_replace(old(self)@, by),
    {
        replace_slot(guarded_mut(self), by);
    }
}

impl<T: ?Sized + Send> OnTheFlySwap<T> {
    /// A handle to a new cell whose slot holds `b`.
    pub fn new(b: Box<T>) -> OnTheFlySwap<T> {
        OnTheFlySwap { inner: Arc::new(new_mutex(Some(b))) }
    }

    /// A handle to a new cell whose slot is empty.
    pub fn new_empty() -> OnTheFlySwap<T> {
        OnTheFlySwap { inner: Arc::new(new_mutex(None)) }
    }

    /// Under the lock, stores `replace_by` in the slot, dropping what it held;
    /// `None` clears the slot. The handle itself stays the same. A thread that
    /// already holds a guard on this cell blocks here for ever.
    pub fn replace_inner(&mut self, replace_by: Option<OnTheFlySwapInner<T>>)
        ensures
            *final(self) == *old(self),
    {
        let mut guard = self.lock();
        guard.replace(replace_by);
    }

    /// Replacing while handing back the previous value has no behaviour yet:
    /// every call fails with `Unimplemented` and leaves the cell alone.
    pub fn replace_take(&mut self, replace_by: Option<OnTheFlySwapInner<T>>) -> (r: Result<
        (),
        Unimplemented,
    >)
        ensures
            r == Err::<(), Unimplemented>(Unimplemented),
            *final(self) == *old(self),
    {
        Err(Unimplemented)
    }

    /// Blocks until this thread holds the cell's lock. The lock is never
    /// poisoned, so the result is always `Ok`.
    pub fn lock_w(&self) -> (r: LockResult<MutexGuardRef<'_, T>>)
        ensures
            r is Ok,
    {
        Ok(self.lock())
    }

    /// Blocks until this thread holds the cell's lock, and hands out the guard.
    /// A thread that already holds a guard on this cell blocks here for ever.
    pub fn lock(&self) -> MutexGuardRef<'_, T> {
        lock_mutex(&*self.inner)
    }
}

} // verus!
