use vstd::prelude::*;

use crate::time::clock::Time;
use crate::time::duration::{max_nanos, Duration};

verus! {

/// The span of one fixed step unless another is set: 15625 microseconds,
/// that is 64 steps per second.
pub const DEFAULT_TIMESTEP_MICROS: u64 = 15625;

/// The context of a fixed-step clock: the span of one step, and the span
/// accumulated towards the next step (the overstep).
#[derive(Debug, Clone, Copy)]
pub struct Fixed {
    timestep: Duration,
    overstep: Duration,
}

impl Fixed {
    /// A step is never empty.
    #[verifier::type_invariant]
    closed spec fn step_nonempty(self) -> bool {
        self.timestep@ > 0
    }

    /// The span of one step, in nanoseconds.
    pub closed spec fn spec_timestep(&self) -> nat {
        self.timestep@
    }

    /// The accumulated span not yet spent on steps, in nanoseconds.
    pub closed spec fn spec_overstep(&self) -> nat {
        self.overstep@
    }
}

impl Default for Fixed {
    fn default() -> (f: Fixed)
        ensures
            f.spec_timestep() == DEFAULT_TIMESTEP_MICROS * 1000,
            f.spec_overstep() == 0,
    {
        Fixed { timestep: Duration::from_micros(DEFAULT_TIMESTEP_MICROS), overstep: Duration::zero() }
    }
}

/// What one attempt to spend a step does to a fixed-step clock of the given
/// overstep, timestep and elapsed span: whether a step is taken, and the
/// overstep and elapsed span afterwards.
pub open spec fn expend_step(overstep: nat, timestep: nat, elapsed: nat) -> (bool, nat, nat) {
    if timestep <= overstep {
        (true, (overstep - timestep) as nat, elapsed + timestep)
    } else {
        (false, overstep, elapsed)
    }
}

/// The overstep and elapsed span after `n` successful steps.
pub open spec fn after_steps(overstep: nat, timestep: nat, elapsed: nat, n: nat) -> (nat, nat) {
    ((overstep - n * timestep) as nat, elapsed + n * timestep)
}

impl Time<Fixed> {
    /// The span of one step, in nanoseconds.
    pub open spec fn timestep_nanos(&self) -> nat {
        self.spec_context().spec_timestep()
    }

    /// The span accumulated towards the next step, in nanoseconds.
    pub open spec fn overstep_nanos(&self) -> nat {
        self.spec_context().spec_overstep()
    }

    /// A fixed-step clock whose step spans `timestep`, which must not be empty.
    pub fn from_duration(timestep: Duration) -> (t: Time<Fixed>)
        requires
            timestep@ != 0,
        ensures
            t.timestep_nanos() == timestep@,
            t.overstep_nanos() == 0,
            t.spec_delta() == 0,
            t.spec_elapsed() == 0,
    {
        let mut ret = Time::new_with(Fixed::default());
        ret.set_timestep(timestep);
        ret
    }

    /// The span of one step.
    pub fn timestep(&self) -> (d: Duration)
        ensures
            d@ == self.timestep_nanos(),
            d@ > 0,
    {
        let context = self.context();
        proof {
            use_type_invariant(context);
        }
        context.timestep
    }

    /// Sets the span of one step, which must not be empty.
    pub fn set_timestep(&mut self, timestep: Duration)
        requires
            timestep@ != 0,
        ensures
            final(self).timestep_nanos() == timestep@,
            final(self).overstep_nanos() == old(self).overstep_nanos(),
            final(self).spec_delta() == old(self).spec_delta(),
            final(self).spec_elapsed() == old(self).spec_elapsed(),
    {
        let context = self.context_mut();
        context.timestep = timestep;
    }

    /// The span accumulated towards the next step.
    pub fn overstep(&self) -> (d: Duration)
        ensures
            d@ == self.overstep_nanos(),
    {
        self.context().overstep
    }

    /// Drops `discard` from the accumulated span, down to nothing at most.
    pub fn discard_overstep(&mut self, discard: Duration)
        ensures
            final(self).overstep_nanos() == if discard@ <= old(self).overstep_nanos() {
                old(self).overstep_nanos() - discard@
            } else {
                0
            },
            final(self).timestep_nanos() == old(self).timestep_nanos(),
            final(self).spec_delta() == old(self).spec_delta(),
            final(self).spec_elapsed() == old(self).spec_elapsed(),
    {
        let context = self.context_mut();
        proof {
            use_type_invariant(&*context);
        }
        context.overstep = context.overstep.saturating_sub(discard);
    }

    /// Adds `delta` to the span accumulated towards the next step; the sum
    /// must stay within the largest span.
    pub fn accumulate(&mut self, delta: Duration)
        requires
            old(self).overstep_nanos() + delta@ <= max_nanos(),
        ensures
            final(self).overstep_nanos() == old(self).overstep_nanos() + delta@,
            final(self).timestep_nanos() == old(self).timestep_nanos(),
            final(self).spec_delta() == old(self).spec_delta(),
            final(self).spec_elapsed() == old(self).spec_elapsed(),
    {
        let context = self.context_mut();
        proof {
            use_type_invariant(&*context);
        }
        context.overstep = context.overstep.plus(delta);
    }

    /// Spends one step out of the accumulated span if it holds one: the
    /// clock then advances by one step. Returns whether a step was spent.
    /// Where a step is spent the elapsed span must stay within the largest
    /// span.
    pub fn expend(&mut self) -> (stepped: bool)
        requires
            old(self).timestep_nanos() <= old(self).overstep_nanos() ==> old(self).spec_elapsed()
                + old(self).timestep_nanos() <= max_nanos(),
        ensures
            (stepped, final(self).overstep_nanos(), final(self).spec_elapsed()) == expend_step(
                old(self).overstep_nanos(),
                old(self).timestep_nanos(),
                old(self).spec_elapsed(),
            ),
            stepped ==> final(self).spec_delta() == old(self).timestep_nanos(),
            !stepped ==> final(self).spec_delta() == old(self).spec_delta(),
            final(self).timestep_nanos() == old(self).timestep_nanos(),
            old(self).timestep_nanos() > 0,
            stepped ==> spend_all(
                old(self).overstep_nanos(),
                old(self).timestep_nanos(),
                old(self).spec_elapsed(),
            ) == ({
                let rest = spend_all(
                    final(self).overstep_nanos(),
                    final(self).timestep_nanos(),
                    final(self).spec_elapsed(),
                );
                (rest.0 + 1, rest.1, rest.2)
            }),
            !stepped ==> spend_all(
                old(self).overstep_nanos(),
                old(self).timestep_nanos(),
                old(self).spec_elapsed(),
            ) == (0nat, old(self).overstep_nanos(), old(self).spec_elapsed()),
    {
        let timestep = self.timestep();
        let overstep = self.context().overstep;
        if let Some(new_value) = overstep.checked_sub(timestep) {
            self.context_mut().overstep = new_value;
            self.advance_by(timestep);
            true
        } else {
            false
        }
    }
}

/// Spending a step never changes the sum of the overstep and the elapsed
/// span: time moves from the accumulator into the clock and none is lost.
pub proof fn lemma_expend_conserves_time(overstep: nat, timestep: nat, elapsed: nat)
    ensures
        ({
            let (_, o, e) = expend_step(overstep, timestep, elapsed);
            o + e == overstep + elapsed
        }),
{
}

/// Spending steps one after another, starting from an overstep of
/// `overstep` with a non-empty timestep, takes exactly
/// `overstep / timestep` steps before an attempt fails; the overstep left is
/// `overstep % timestep`, shorter than one step, and the elapsed span grows
/// by the whole steps taken.
pub proof fn lemma_expend_until_exhausted(overstep: nat, timestep: nat, elapsed: nat, n: nat)
    requires
        timestep > 0,
        n <= overstep / timestep,
    ensures
        ({
            let (o, e) = after_steps(overstep, timestep, elapsed, n);
            &&& n < overstep / timestep ==> expend_step(o, timestep, e) == (
                true,
                after_steps(overstep, timestep, elapsed, n + 1).0,
                after_steps(overstep, timestep, elapsed, n + 1).1,
            )
            &&& n == overstep / timestep ==> {
                &&& o == overstep % timestep
                &&& o < timestep
                &&& expend_step(o, timestep, e) == (false, o, e)
            }
        }),
{
    let q = overstep / timestep;
    let r = overstep % timestep;
    assert(overstep == q * timestep + r) by (nonlinear_arith)
        requires
            timestep > 0,
            q == overstep / timestep,
            r == overstep % timestep,
    ;
    assert(n * timestep <= q * timestep) by (nonlinear_arith)
        requires
            n <= q,
    ;
    assert((n + 1) * timestep == n * timestep + timestep) by (nonlinear_arith);
    if n < q {
        assert((n + 1) * timestep <= q * timestep) by (nonlinear_arith)
            requires
                n + 1 <= q,
        ;
    }
}

/// What calling `expend` again and again until it fails does to a clock of
/// the given overstep, timestep and elapsed span: the number of steps
/// spent, and the overstep and elapsed span left. Each call is one
/// `expend_step`. A clock whose step is empty would never stop, so none is
/// counted for it.
pub open spec fn spend_all(overstep: nat, timestep: nat, elapsed: nat) -> (nat, nat, nat)
    decreases overstep,
{
    let (stepped, o, e) = expend_step(overstep, timestep, elapsed);
    if stepped && timestep > 0 {
        let (n, o_left, e_left) = spend_all(o, timestep, e);
        (n + 1, o_left, e_left)
    } else {
        (0, overstep, elapsed)
    }
}

/// Calling `expend` until it fails, on a clock with a non-empty step,
/// spends exactly `overstep / timestep` steps; the overstep left is
/// `overstep % timestep`, shorter than one step, and the elapsed span grows
/// by the steps spent, so that the overstep and elapsed span together stay
/// as they were.
pub proof fn lemma_spend_all(overstep: nat, timestep: nat, elapsed: nat)
    requires
        timestep > 0,
    ensures
        spend_all(overstep, timestep, elapsed) == (
            overstep / timestep,
            overstep % timestep,
            elapsed + (overstep / timestep) * timestep,
        ),
        overstep % timestep < timestep,
    decreases overstep,
{
    let s = timestep as int;
    let o = overstep as int;
    vstd::arithmetic::div_mod::lemma_mod_pos_bound(o, s);
    if overstep < timestep {
        vstd::arithmetic::div_mod::lemma_fundamental_div_mod_converse(o, s, 0, o);
    } else {
        let rest = (overstep - timestep) as nat;
        lemma_spend_all(rest, timestep, elapsed + timestep);
        let q = rest / timestep;
        let r = rest % timestep;
        vstd::arithmetic::div_mod::lemma_fundamental_div_mod(rest as int, s);
        vstd::arithmetic::div_mod::lemma_mod_pos_bound(rest as int, s);
        assert(o == (q + 1) * s + r) by (nonlinear_arith)
            requires
                rest == s * q + r,
                o == rest + s,
        ;
        vstd::arithmetic::div_mod::lemma_fundamental_div_mod_converse(o, s, (q + 1) as int, r as int);
        assert(elapsed + timestep + q * timestep == elapsed + (q + 1) * timestep)
            by (nonlinear_arith);
    }
}

} // verus!
