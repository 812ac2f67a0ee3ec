//! The layout of a shared-memory segment: a count of the programs that hold
//! it, followed by the shared value. The count lives in shared memory and is
//! changed by other processes at any time, so what a read of it returns is
//! not determined by this process.

use vstd::prelude::*;
use core::sync::atomic::AtomicU8;
use core::sync::atomic::Ordering;

verus! {

/// The content of a shared-memory segment.
pub struct View<T> {
    programs_holding: AtomicU8,
    inner: T,
}

impl<T: Default> View<T> {
    /// A fresh segment content: no holder yet and the default value.
    pub fn new() -> (r: Self)
        ensures
            call_ensures(T::default, (), r.value()),
    {
        View { programs_holding: AtomicU8::new(0u8), inner: T::default() }
    }

    /// Records one more holder; returns the count before the increment
    /// (which wraps at 256).
    pub fn inc_ref_count(&self) -> u8 {
        self.programs_holding.fetch_add(1u8, Ordering::SeqCst)
    }

    /// The shared holder count.
    pub fn ref_count(&self) -> (r: &AtomicU8)
        ensures
            *r == self.counter(),
    {
        &self.programs_holding
    }

    /// Records one holder less; returns the count before the decrement
    /// (which wraps at zero).
    pub fn dec_ref_count(&self) -> u8 {
        self.programs_holding.fetch_sub(1u8, Ordering::SeqCst)
    }
}

impl<T> View<T> {
    /// The shared holder counter.
    pub closed spec fn counter(self) -> AtomicU8 {
        self.programs_holding
    }

    /// The shared value.
    pub closed spec fn value(self) -> T {
        self.inner
    }

    /// The shared value.
    pub fn get(&self) -> (r: &T)
        ensures
            *r == self.value(),
    {
        &self.inner
    }

    /// The shared value, for writing.
    pub fn get_mut(&mut self) -> (r: &mut T)
        ensures
            *r == old(self).value(),
            final(self).value() == *final(r),
            final(self).counter() == old(self).counter(),
    {
        &mut self.inner
    }
}

/// Whether the injector keeps watching a target: the capture library has not
/// loaded yet, or some program besides the injector still holds the segment.
pub fn target_still_attached(loaded: bool, ref_count: u8) -> (r: bool)
    ensures
        r == (!loaded || ref_count > 1),
{
    !loaded || ref_count > 1
}

} // verus!
