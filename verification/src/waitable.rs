use vstd::prelude::*;
use crate::poll::AsyncComputation;

verus! {

/// Implemented for every suspendable computation, and for nothing else: the
/// `Waitable` trait cannot be implemented outside this crate.
pub trait Sealed {

}

impl<C: AsyncComputation> Sealed for C {

}

/// The `Waitable` trait declares the `.wait()` method.
///
/// It is implemented for every suspendable computation, so the method is
/// available directly on any such value. When called, `.wait()` drives the
/// computation on the calling thread until it produces its value.
pub trait Waitable: Sealed + Sized {
    /// The type of the value the computation produces.
    type Output;

    /// What a call of `wait` demands of the value it consumes.
    spec fn wait_pre(&self) -> bool;

    /// The value that `wait` returns.
    spec fn wait_value(&self) -> Self::Output;

    /// Block the calling thread until the computation produces its value,
    /// and return that value.
    fn wait(self) -> (r: Self::Output)
        requires
            self.wait_pre(),
        ensures
            r == self.wait_value(),
    ;
}

impl<C: AsyncComputation> Waitable for C {
    type Output = <C as AsyncComputation>::Output;

    open spec fn wait_pre(&self) -> bool {
        self.wf() && !self.complete() && self.steps_remaining() <= u64::MAX
    }

    open spec fn wait_value(&self) -> Self::Output {
        self.result()
    }

    fn wait(self) -> Self::Output {
        crate::driver::block_on(self)
    }
}

} // verus!
