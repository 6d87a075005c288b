//! Callback adapters, in both directions. A foreign-supplied invocable is
//! received behind a call-duration mutable borrow and invoked through the
//! [`DynFnMut0`] trait; the borrow ends when the hosting call returns, so
//! the invocable cannot be used afterwards. In the other direction the
//! core hands out a boxed invocable, [`BoxedFnMut1`], that the foreign
//! side may call repeatedly until it releases it through the paired
//! release operation. Bare function pointers are the minimal third path:
//! no ownership, no lifetime tracking.

use vstd::prelude::*;

verus! {

/// A stateful invocable taking no arguments, as supplied by the foreign
/// side for the duration of one call. `calls` counts how often it has
/// been invoked; every invocation increments it by exactly one.
pub trait DynFnMut0 {
    /// How many times this invocable has been invoked so far.
    spec fn calls(&self) -> nat;

    /// Invoke the callable once.
    fn call(&mut self) -> (r: i32)
        requires
            old(self).calls() < u64::MAX,
        ensures
            final(self).calls() == old(self).calls() + 1,
    ;
}

/// An invocation counter: the simplest [`DynFnMut0`], returning 0 from
/// every call and remembering only how often it was called.
pub struct InvocationCounter {
    count: u64,
}

impl InvocationCounter {
    pub fn new() -> (r: Self)
        ensures
            r.calls() == 0,
    {
        InvocationCounter { count: 0 }
    }

    /// The number of invocations so far, as a machine integer.
    pub fn count(&self) -> (r: u64)
        ensures
            r == self.calls(),
    {
        self.count
    }
}

impl DynFnMut0 for InvocationCounter {
    closed spec fn calls(&self) -> nat {
        self.count as nat
    }

    fn call(&mut self) -> (r: i32) {
        self.count = self.count + 1;
        0
    }
}

/// A boxed invocable of one argument whose ownership has crossed to the
/// foreign side: callable any number of times, then released exactly once
/// through [`BoxedFnMut1::release`], which consumes it. This one computes
/// the identity; `calls` counts its invocations.
pub struct BoxedFnMut1 {
    calls: Ghost<nat>,
}

impl BoxedFnMut1 {
    /// How many times this invocable has been invoked since it was handed
    /// out.
    pub closed spec fn calls(&self) -> nat {
        self.calls@
    }

    /// Box a fresh identity invocable, not yet invoked, and pass its
    /// ownership out.
    pub fn new() -> (r: Self)
        ensures
            r.calls() == 0,
    {
        BoxedFnMut1 { calls: Ghost(0nat) }
    }

    /// Invoke the boxed callable: returns its argument unchanged.
    pub fn call(&mut self, x: i32) -> (r: i32)
        ensures
            r == x,
            final(self).calls() == old(self).calls() + 1,
    {
        self.calls = Ghost(self.calls@ + 1);
        x
    }

    /// The paired release operation: consumes the handle by value, so a
    /// released invocable cannot be invoked or released again.
    pub fn release(self) {
        let _ = self;
    }
}

/// Receives a borrowed foreign invocable, invokes it exactly once within
/// this call, and hands back a fresh boxed identity invocable that the
/// caller now owns. The borrowed invocable is not retained: the borrow
/// ends when this call returns.
pub fn call_closures<C: DynFnMut0>(p: &mut C) -> (r: BoxedFnMut1)
    requires
        old(p).calls() < u64::MAX,
    ensures
        final(p).calls() == old(p).calls() + 1,
        r.calls() == 0,
{
    p.call();
    BoxedFnMut1::new()
}

/// Calls a bare function pointer with the fixed arguments `(1, 2)` and
/// returns whatever it returned. The core takes no ownership of the code
/// address; the caller answers for its validity.
pub fn call_fun_ptr<F: Fn(i32, i32) -> i32>(p: F) -> (r: i32)
    requires
        call_requires(p, (1i32, 2i32)),
    ensures
        call_ensures(p, (1i32, 2i32), r),
{
    p(1, 2)
}

} // verus!
