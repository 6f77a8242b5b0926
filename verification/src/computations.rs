use vstd::prelude::*;
use crate::poll::{AsyncComputation, PollResult};
use crate::wake::WakeHandle;

verus! {

/// A computation that produces the sum of its two operands on its first
/// poll, without ever reporting `Pending`.
pub struct Add {
    sum: usize,
    done: bool,
}

impl Add {
    /// A fresh addition, not yet polled.
    pub fn new(a: usize, b: usize) -> (c: Add)
        requires
            a + b <= usize::MAX,
        ensures
            c.wf(),
            !c.complete(),
            c.steps_remaining() == 0,
            c.result() == a + b,
    {
        Add { sum: a + b, done: false }
    }
}

impl AsyncComputation for Add {
    type Output = usize;

    closed spec fn wf(&self) -> bool {
        true
    }

    closed spec fn complete(&self) -> bool {
        self.done
    }

    closed spec fn steps_remaining(&self) -> nat {
        0
    }

    closed spec fn result(&self) -> usize {
        self.sum
    }

    fn poll(&mut self, wake: &mut WakeHandle) -> (r: PollResult<usize>) {
        self.done = true;
        PollResult::Ready(self.sum)
    }
}

/// A computation that multiplies by repeated addition: `a` sequential inner
/// `Add` computations of `b`, each awaited to completion within the poll
/// that reaches it. Every inner addition is ready at once, so the whole
/// product is produced on the first poll, as an `async` multiplication
/// awaiting ready additions would be.
pub struct Mul {
    remaining: usize,
    step: usize,
    acc: usize,
    done: bool,
}

impl Mul {
    /// A fresh multiplication of `a` by `b`, not yet polled.
    pub fn new(a: usize, b: usize) -> (c: Mul)
        requires
            a * b <= usize::MAX,
        ensures
            c.wf(),
            !c.complete(),
            c.steps_remaining() == 0,
            c.result() == a * b,
    {
        Mul { remaining: a, step: b, acc: 0, done: false }
    }
}

impl AsyncComputation for Mul {
    type Output = usize;

    closed spec fn wf(&self) -> bool {
        self.acc + self.remaining * self.step <= usize::MAX
    }

    closed spec fn complete(&self) -> bool {
        self.done
    }

    closed spec fn steps_remaining(&self) -> nat {
        0
    }

    closed spec fn result(&self) -> usize {
        (self.acc + self.remaining * self.step) as usize
    }

    fn poll(&mut self, wake: &mut WakeHandle) -> (r: PollResult<usize>) {
        let ghost start = *self;
        #[verifier::loop_isolation(false)]
        while self.remaining > 0
            invariant
                self.wf(),
                self.done == start.done,
                self.acc + self.remaining * self.step == start.acc + start.remaining
                    * start.step,
            decreases self.remaining,
        {
            proof {
                assert(self.step <= self.remaining * self.step) by (nonlinear_arith)
                    requires
                        self.remaining >= 1,
                        self.step >= 0,
                ;
            }
            let mut inner = Add::new(self.acc, self.step);
            match inner.poll(wake) {
                PollResult::Ready(partial) => {
                    proof {
                        assert((self.remaining - 1) * self.step == self.remaining * self.step
                            - self.step) by (nonlinear_arith);
                    }
                    self.acc = partial;
                    self.remaining = self.remaining - 1;
                },
                PollResult::Pending => {
                    proof {
                        assert(false);
                    }
                },
            }
        }
        self.done = true;
        PollResult::Ready(self.acc)
    }
}

/// A computation that reports `Pending` a fixed number of times before
/// producing its value, signalling the wake handle with each `Pending` as
/// the polling contract demands.
pub struct Delay {
    remaining: usize,
    value: u64,
    done: bool,
}

impl Delay {
    /// A fresh computation that will report `Pending` exactly
    /// `pending_polls` times and then produce `value`.
    pub fn new(pending_polls: usize, value: u64) -> (c: Delay)
        ensures
            c.wf(),
            !c.complete(),
            c.steps_remaining() == pending_polls,
            c.result() == value,
    {
        Delay { remaining: pending_polls, value, done: false }
    }
}

impl AsyncComputation for Delay {
    type Output = u64;

    closed spec fn wf(&self) -> bool {
        true
    }

    closed spec fn complete(&self) -> bool {
        self.done
    }

    closed spec fn steps_remaining(&self) -> nat {
        self.remaining as nat
    }

    closed spec fn result(&self) -> u64 {
        self.value
    }

    fn poll(&mut self, wake: &mut WakeHandle) -> (r: PollResult<u64>) {
        if self.remaining > 0 {
            self.remaining = self.remaining - 1;
            wake.notify();
            PollResult::Pending
        } else {
            self.done = true;
            PollResult::Ready(self.value)
        }
    }
}

} // verus!
