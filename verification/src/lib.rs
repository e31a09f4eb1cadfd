//! A mutex for the RP2040 whose exclusion comes from the chip's hardware spinlocks.
//!
//! The RP2040 has 32 numbered hardware spinlocks, shared by both cores and by every piece
//! of code on them. A [`SpinlockMutex<N, T>`] owns a value of type `T` and ties all access
//! to it to spinlock `N`: locking the mutex claims the spinlock and gives back a
//! [`SpinlockMutexGuard`], the guard reads and writes the value, and the end of the guard
//! releases the spinlock.
//!
//! Two mutexes with the same number contend for the same spinlock, and so does any other
//! code that claims that number. The HAL's `critical-section` implementation uses
//! spinlock 31. Claiming a spinlock that the same context already holds never returns,
//! and neither does claiming one from an interrupt handler that interrupted its holder.
//! When both cores ask in the same clock cycle core 0 wins, so core 1 can starve.
//!
//! The library is verified with Verus and contains no `unsafe`; only the two calls into
//! the HAL that claim a spinlock are taken on trust. Exclusive access to the value is
//! therefore asked of the caller as `&mut`: what a guard gives access to is a plain
//! mutable borrow of the mutex. Code that shares one mutex between the cores has to turn
//! its shared reference into that borrow itself, once it holds the claim, and then calls
//! [`SpinlockMutex::lock_with`] with the claim.

mod hardware;
pub mod mutex;

pub use crate::mutex::SpinlockMutex;
pub use crate::mutex::SpinlockMutexGuard;
