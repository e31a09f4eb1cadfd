//! The mutex, which owns the protected value, and its guard.

use crate::hardware::{claim, try_claim};
use core::ops::{Deref, DerefMut};
use rp2040_hal::sio::{Spinlock, SpinlockValid};
use vstd::prelude::*;

verus! {

/// A value of type `T` that is reached only through guards, each of which holds a claim on
/// hardware spinlock `N`.
///
/// The mutex never hands out a reference to its value by itself. Creating one touches no
/// hardware.
pub struct SpinlockMutex<const N: usize, T> {
    data: T,
}

/// Exclusive access to the value of a [`SpinlockMutex<N, T>`], for as long as the guard
/// lives.
///
/// A guard holds a claim of type `C` on spinlock `N` and a mutable borrow of the value. It
/// has no destructor of its own: when it goes out of scope, or is handed to
/// [`SpinlockMutex::unlock`], the claim is dropped with it, once, and it is the claim's
/// destructor that releases the spinlock.
#[must_use]
pub struct SpinlockMutexGuard<'a, const N: usize, C, T> {
    claim: C,
    data: &'a mut T,
}

impl<const N: usize, T> SpinlockMutex<N, T> {
    /// The protected value.
    pub closed spec fn view(&self) -> T {
        self.data
    }

    /// Makes the guard for a claim on spinlock `N` that the caller already holds.
    ///
    /// The guard shows the value that the mutex holds, it holds `claim`, and what it shows
    /// last is what the mutex holds once the guard is gone.
    pub fn lock_with<'a, C>(&'a mut self, claim: C) -> (guard: SpinlockMutexGuard<'a, N, C, T>)
        ensures
            guard@ == old(self)@,
            guard.claim() == claim,
            final(self)@ == *final(guard.access()),
    {
        SpinlockMutexGuard { claim, data: &mut self.data }
    }

    /// Makes the guard for the outcome of an attempt to claim spinlock `N`: a guard as
    /// [`lock_with`](Self::lock_with) makes it if the attempt gave a claim, and no guard,
    /// with the mutex unchanged, if it gave none.
    pub fn try_lock_with<'a, C>(
        &'a mut self,
        claim: Option<C>,
    ) -> (guard: Option<SpinlockMutexGuard<'a, N, C, T>>)
        ensures
            guard is Some <==> claim is Some,
            guard matches Some(g) ==> g@ == old(self)@ && g.claim() == claim->Some_0,
            guard matches Some(g) ==> final(self)@ == *final(g.access()),
            guard is None ==> final(self)@ == old(self)@,
    {
        match claim {
            Some(claim) => Some(self.lock_with(claim)),
            None => None,
        }
    }

    /// Gives up a guard at once instead of at the end of its scope. The mutex is left with
    /// the value that the guard shows, and the guard's claim is dropped with it.
    #[inline]
    pub fn unlock<'a, C>(guard: SpinlockMutexGuard<'a, N, C, T>)
        ensures
            *final(guard.access()) == guard@,
    {
    }

    /// Data consistency: what one holder wrote last is what the next holder reads. If the
    /// guard `earlier` showed `written` when it went out of use, `between` is the mutex
    /// as `earlier` left it, and `later` is a guard made from `between`, then `later`
    /// shows `written`.
    pub proof fn next_guard_sees_last_write<'a, 'b, C1, C2>(
        earlier: SpinlockMutexGuard<'a, N, C1, T>,
        between: Self,
        later: SpinlockMutexGuard<'b, N, C2, T>,
        written: T,
    )
        requires
            earlier@ == written,
            has_resolved(earlier),
            between@ == *final(earlier.access()),
            later@ == between@,
        ensures
            later@ == written,
    {
    }
}

impl<const N: usize, T> SpinlockMutex<N, T> where Spinlock<N>: SpinlockValid {
    /// Creates a mutex around `data`, with no guard out. `N` has to be the number of one of
    /// the 32 hardware spinlocks, which the compiler checks.
    #[inline]
    pub fn new(data: T) -> (mutex: Self)
        ensures
            mutex@ == data,
    {
        SpinlockMutex { data }
    }

    /// Claims spinlock `N`, waiting for it as long as another holder keeps it, and returns
    /// the guard.
    ///
    /// The wait is a busy poll of the hardware, it has no timeout, and interrupts stay
    /// enabled. If spinlock `N` is never released the call never returns. That is so when
    /// the calling context holds it itself: through another mutex with the same number,
    /// through a guard that was forgotten instead of dropped, or through any other code
    /// that claimed the number.
    #[inline]
    pub fn lock<'a>(&'a mut self) -> (guard: SpinlockMutexGuard<'a, N, impl Sized, T>)
        ensures
            guard@ == old(self)@,
            final(self)@ == *final(guard.access()),
    {
        let claim = claim::<N>();
        self.lock_with(claim)
    }

    /// Tries once to claim spinlock `N`, without waiting. Returns the guard if the
    /// spinlock was free, and `None`, leaving the mutex as it is, if it was in use.
    pub fn try_lock<'a>(&'a mut self) -> (guard: Option<SpinlockMutexGuard<'a, N, impl Sized, T>>)
        ensures
            guard matches Some(g) ==> g@ == old(self)@,
            guard matches Some(g) ==> final(self)@ == *final(g.access()),
            guard is None ==> final(self)@ == old(self)@,
    {
        let claim = try_claim::<N>();
        self.try_lock_with(claim)
    }
}

impl<'a, const N: usize, C, T> SpinlockMutexGuard<'a, N, C, T> {
    /// The protected value as the guard sees it now.
    pub closed spec fn view(&self) -> T {
        *self.data
    }

    /// The claim on the spinlock that the guard holds.
    pub closed spec fn claim(&self) -> C {
        self.claim
    }

    /// The borrow through which the guard reaches the value. Its final value is what the
    /// mutex holds once the guard is gone.
    pub closed spec fn access(&self) -> &'a mut T {
        self.data
    }

    /// Release at the end of scope: a guard that is no longer in use leaves the mutex with
    /// the value that the guard showed last. This is also all that
    /// [`SpinlockMutex::unlock`] does to the value, so the two ways of giving up a guard
    /// have the same effect on it.
    pub proof fn released_value_is_last_view(self)
        requires
            has_resolved(self),
        ensures
            *final(self.access()) == self@,
    {
    }
}

impl<'a, const N: usize, C, T> Deref for SpinlockMutexGuard<'a, N, C, T> {
    type Target = T;

    /// Read access to the protected value.
    fn deref(&self) -> (value: &T)
        ensures
            *value == self@,
    {
        &*self.data
    }
}

impl<'a, const N: usize, C, T> DerefMut for SpinlockMutexGuard<'a, N, C, T> {
    /// Write access to the protected value: what is written through the reference is what
    /// the guard shows afterwards. The guard keeps its claim and its place in the mutex.
    fn deref_mut(&mut self) -> (value: &mut T)
        ensures
            *value == old(self)@,
            final(self)@ == *final(value),
            final(self).claim() == old(self).claim(),
            *final(final(self).access()) == *final(old(self).access()),
    {
        &mut *self.data
    }
}

} // verus!
