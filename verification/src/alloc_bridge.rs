//! The allocator bridge: heap-allocates a single value and hands the one
//! owning handle to the foreign side; the paired release operation
//! consumes the handle and frees the allocation. This is the one
//! component with an explicitly recoverable allocation result, returned
//! as an option rather than aborting.

use vstd::prelude::*;

verus! {

/// An owning handle to a single heap-allocated value. Exactly one handle
/// exists per allocation, and the allocation is freed only by consuming
/// the handle (through [`free_int`] or by dropping it), so a handle that
/// was freed once cannot be freed again.
pub struct Malloc<T> {
    ptr: Box<T>,
}

impl<T> Malloc<T> {
    /// The allocated value.
    pub closed spec fn value(&self) -> T {
        *self.ptr
    }

    /// Heap-allocates `value` and returns the owning handle, or `None` on
    /// allocation failure. (The host allocator aborts instead of failing,
    /// so in this build the result is always `Some`.)
    pub fn new(value: T) -> (r: Option<Self>)
        ensures
            (r matches Some(m) && m.value() == value),
    {
        Some(Malloc { ptr: Box::new(value) })
    }

    /// Read the allocated value through a borrow, without giving up the
    /// handle.
    pub fn get(&self) -> (r: &T)
        ensures
            *r == self.value(),
    {
        &self.ptr
    }
}

/// Allocates one integer on the heap and passes ownership out.
pub fn new_int(x: i32) -> (r: Option<Malloc<i32>>)
    ensures
        (r matches Some(m) && m.value() == x),
{
    Malloc::new(x)
}

/// The paired release operation for [`new_int`]: consumes the handle by
/// value and frees the allocation, exactly once.
pub fn free_int(x: Malloc<i32>) {
    let _ = x;
}

} // verus!
