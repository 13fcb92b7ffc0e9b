//! Cells shared between cores. Here access goes through Rust's borrows, so
//! exclusive access is checked where the kernel relies on discipline.
use vstd::prelude::*;

verus! {

/// A cell whose content is reached through `borrow` and `borrow_mut`.
pub struct SyncRefCell<T> {
    inner: T,
}

impl<T> SyncRefCell<T> {
    /// The content.
    pub closed spec fn value(&self) -> T {
        self.inner
    }

    /// Reads the content.
    pub fn borrow(&self) -> (r: &T)
        ensures
            *r == self.value(),
    {
        &self.inner
    }

    /// Reaches the content to change it.
    pub fn borrow_mut(&mut self) -> (r: &mut T)
        ensures
            *r == old(self).value(),
            final(self).value() == *final(r),
    {
        &mut self.inner
    }

    /// A cell holding `value`.
    pub fn new(value: T) -> (r: SyncRefCell<T>)
        ensures
            r.value() == value,
    {
        SyncRefCell { inner: value }
    }
}

/// A cell whose content is reached without run-time checks.
pub struct SyncUnsafeCell<T> {
    inner: T,
}

impl<T> SyncUnsafeCell<T> {
    /// The content.
    pub closed spec fn value(&self) -> T {
        self.inner
    }

    /// Reads the content.
    pub fn get(&self) -> (r: &T)
        ensures
            *r == self.value(),
    {
        &self.inner
    }

    /// Reaches the content to change it.
    pub fn get_mut(&mut self) -> (r: &mut T)
        ensures
            *r == old(self).value(),
            final(self).value() == *final(r),
    {
        &mut self.inner
    }

    /// A cell holding `value`.
    pub fn new(value: T) -> (r: SyncUnsafeCell<T>)
        ensures
            r.value() == value,
    {
        SyncUnsafeCell { inner: value }
    }
}

} // verus!
