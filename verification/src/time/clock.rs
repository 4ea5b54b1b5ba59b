use vstd::prelude::*;

use crate::time::duration::{max_nanos, Duration};

verus! {

/// A clock: the span of its last step, the total span it has advanced, and
/// a context that specialises it (a fixed step, a wall clock).
#[derive(Debug, Clone, Copy)]
pub struct Time<T> {
    context: T,
    delta: Duration,
    elapsed: Duration,
}

impl<T> Time<T> {
    /// The clock's context.
    pub closed spec fn spec_context(&self) -> T {
        self.context
    }

    /// The span of the clock's last step, in nanoseconds.
    pub closed spec fn spec_delta(&self) -> nat {
        self.delta@
    }

    /// The total span the clock has advanced, in nanoseconds.
    pub closed spec fn spec_elapsed(&self) -> nat {
        self.elapsed@
    }

    /// A clock that has not advanced, with the given context.
    pub fn new_with(context: T) -> (t: Time<T>)
        ensures
            t.spec_context() == context,
            t.spec_delta() == 0,
            t.spec_elapsed() == 0,
    {
        Time { context, delta: Duration::zero(), elapsed: Duration::zero() }
    }

    /// Advances the clock by one step of `delta`. The total span must stay
    /// within the largest span.
    pub fn advance_by(&mut self, delta: Duration)
        requires
            old(self).spec_elapsed() + delta@ <= max_nanos(),
        ensures
            final(self).spec_delta() == delta@,
            final(self).spec_elapsed() == old(self).spec_elapsed() + delta@,
            final(self).spec_context() == old(self).spec_context(),
    {
        self.delta = delta;
        self.elapsed = self.elapsed.plus(delta);
    }

    /// Advances the clock so that its total span is `elapsed`, which must not
    /// be shorter than the span it has already advanced.
    pub fn advance_to(&mut self, elapsed: Duration)
        requires
            old(self).spec_elapsed() <= elapsed@,
        ensures
            final(self).spec_delta() == elapsed@ - old(self).spec_elapsed(),
            final(self).spec_elapsed() == elapsed@,
            final(self).spec_context() == old(self).spec_context(),
    {
        proof {
            use_type_invariant(&elapsed);
        }
        let delta = elapsed.minus(self.elapsed);
        self.advance_by(delta);
    }

    /// The span of the last step.
    pub fn delta(&self) -> (d: Duration)
        ensures
            d@ == self.spec_delta(),
    {
        self.delta
    }

    /// The total span the clock has advanced.
    pub fn elapsed(&self) -> (d: Duration)
        ensures
            d@ == self.spec_elapsed(),
    {
        self.elapsed
    }

    /// The clock's context.
    pub fn context(&self) -> (c: &T)
        ensures
            *c == self.spec_context(),
    {
        &self.context
    }

    /// The clock's context, to change it.
    pub fn context_mut(&mut self) -> (c: &mut T)
        ensures
            *c == old(self).spec_context(),
            final(self).spec_context() == *final(c),
            final(self).spec_delta() == old(self).spec_delta(),
            final(self).spec_elapsed() == old(self).spec_elapsed(),
    {
        &mut self.context
    }

    /// The same clock without its context.
    pub fn as_generic(&self) -> (t: Time<()>)
        ensures
            t.spec_delta() == self.spec_delta(),
            t.spec_elapsed() == self.spec_elapsed(),
    {
        Time { context: (), delta: self.delta, elapsed: self.elapsed }
    }
}

impl<T: Default> Default for Time<T> {
    fn default() -> (t: Time<T>)
        ensures
            t.spec_delta() == 0,
            t.spec_elapsed() == 0,
    {
        Time { context: T::default(), delta: Duration::zero(), elapsed: Duration::zero() }
    }
}

} // verus!
