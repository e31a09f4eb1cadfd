//! The two calls into the HAL that claim a hardware spinlock.

use rp2040_hal::sio::{Spinlock, SpinlockValid};
use vstd::prelude::*;

verus! {

/// Calls `rp2040_hal::sio::Spinlock::<N>::claim`, which reads the register of spinlock `N`
/// over and over until the read obtains the lock, and returns the claim. Dropping the
/// claim writes to the same register, which releases the lock.
///
/// Nothing is stated of the result. Whether the call returns at all depends on the other
/// holders of spinlock `N`: while one of them keeps it, the call keeps polling.
#[verifier::external_body]
pub(crate) fn claim<const N: usize>() -> (claim: impl Sized)
    where Spinlock<N>: SpinlockValid,
{
    Spinlock::<N>::claim()
}

/// Calls `rp2040_hal::sio::Spinlock::<N>::try_claim`, which reads the register of spinlock
/// `N` once: `Some` with the claim if that read obtained the lock, `None` if the lock is in
/// use. Dropping the claim writes to the same register, which releases the lock.
///
/// Nothing is stated of the result: which of the two comes back depends on the other
/// holders of spinlock `N` at the moment of the read.
#[verifier::external_body]
pub(crate) fn try_claim<const N: usize>() -> (claim: Option<impl Sized>)
    where Spinlock<N>: SpinlockValid,
{
    Spinlock::<N>::try_claim()
}

} // verus!
