use vstd::prelude::*;

use crate::time::clock::Time;
use crate::time::duration::{max_nanos, Duration};

verus! {

/// A point in time, held as the span since a fixed origin that the
/// application chooses (its view is that span in nanoseconds).
#[derive(Debug, Clone, Copy, PartialEq, Eq, Structural)]
pub struct Instant {
    since_origin: Duration,
}

impl View for Instant {
    type V = nat;

    closed spec fn view(&self) -> nat {
        self.since_origin@
    }
}

impl Instant {
    /// The point that lies `since_origin` after the origin.
    pub fn from_origin(since_origin: Duration) -> (i: Instant)
        ensures
            i@ == since_origin@,
    {
        Instant { since_origin }
    }

    /// The span from the origin to this point.
    pub fn since_origin(&self) -> (d: Duration)
        ensures
            d@ == self@,
    {
        self.since_origin
    }

    /// The point `d` after this one; it must lie within the largest span of
    /// the origin.
    pub fn plus(self, d: Duration) -> (i: Instant)
        requires
            self@ + d@ <= max_nanos(),
        ensures
            i@ == self@ + d@,
    {
        Instant { since_origin: self.since_origin.plus(d) }
    }

    /// The span from `earlier` to this point, or the empty span where
    /// `earlier` is in fact later.
    pub fn saturating_duration_since(self, earlier: Instant) -> (d: Duration)
        ensures
            d@ == if earlier@ <= self@ { self@ - earlier@ } else { 0 },
    {
        self.since_origin.saturating_sub(earlier.since_origin)
    }

    /// Two points with the same view are the same point.
    pub proof fn lemma_view_injective(a: Instant, b: Instant)
        requires
            a@ == b@,
        ensures
            a == b,
    {
        Duration::lemma_view_injective(a.since_origin, b.since_origin);
    }
}

/// The context of a wall clock: when it started, and the instants of its
/// first and last updates, if any.
#[derive(Debug, Clone, Copy)]
pub struct Real {
    startup: Instant,
    first_update: Option<Instant>,
    last_update: Option<Instant>,
}

impl Real {
    /// When the clock started.
    pub closed spec fn spec_startup(&self) -> Instant {
        self.startup
    }

    /// The instant of the first update, if any.
    pub closed spec fn spec_first_update(&self) -> Option<Instant> {
        self.first_update
    }

    /// The instant recorded as the last update, if any.
    pub closed spec fn spec_last_update(&self) -> Option<Instant> {
        self.last_update
    }
}

impl Time<Real> {
    /// When the clock started.
    pub open spec fn startup_at(&self) -> Instant {
        self.spec_context().spec_startup()
    }

    /// The instant of the first update, if any.
    pub open spec fn first_update_at(&self) -> Option<Instant> {
        self.spec_context().spec_first_update()
    }

    /// The instant recorded as the last update, if any.
    pub open spec fn last_update_at(&self) -> Option<Instant> {
        self.spec_context().spec_last_update()
    }

    /// A wall clock started at `startup`, never updated.
    pub fn new(startup: Instant) -> (t: Time<Real>)
        ensures
            t.startup_at() == startup,
            t.first_update_at() is None,
            t.last_update_at() is None,
            t.spec_delta() == 0,
            t.spec_elapsed() == 0,
    {
        Time::new_with(Real { startup, first_update: None, last_update: None })
    }

    /// Updates the clock as if `duration` passed since its last update (or,
    /// before any update, since its start). The instant reached must lie
    /// within the largest span of the origin.
    pub fn update_with_duration(&mut self, duration: Duration)
        requires
            (match old(self).last_update_at() {
                Some(last) => last@,
                None => old(self).startup_at()@,
            }) + duration@ <= max_nanos(),
            old(self).last_update_at() is Some ==> old(self).spec_elapsed() + duration@
                <= max_nanos(),
        ensures
            final(self).startup_at() == old(self).startup_at(),
            match old(self).last_update_at() {
                None => {
                    &&& final(self).first_update_at() matches Some(first) && first@
                        == old(self).startup_at()@ + duration@
                    &&& final(self).last_update_at() == final(self).first_update_at()
                    &&& final(self).spec_delta() == old(self).spec_delta()
                    &&& final(self).spec_elapsed() == old(self).spec_elapsed()
                },
                Some(last) => {
                    &&& final(self).first_update_at() == old(self).first_update_at()
                    &&& final(self).last_update_at() == Some(last)
                    &&& final(self).spec_delta() == duration@
                    &&& final(self).spec_elapsed() == old(self).spec_elapsed() + duration@
                },
            },
    {
        let last_update = match self.context().last_update {
            Some(last) => last,
            None => self.context().startup,
        };
        self.update_with_instant(last_update.plus(duration))
    }

    /// Updates the clock at `instant`. The first update only records the
    /// instant as both the first and the last update. A later update
    /// advances the clock by the span since the recorded last update (none
    /// where `instant` is earlier), and keeps that recorded instant as it
    /// was. The elapsed span must stay within the largest span.
    pub fn update_with_instant(&mut self, instant: Instant)
        requires
            old(self).last_update_at() matches Some(last) ==> old(self).spec_elapsed() + (
            if last@ <= instant@ {
                instant@ - last@
            } else {
                0
            }) <= max_nanos(),
        ensures
            final(self).startup_at() == old(self).startup_at(),
            match old(self).last_update_at() {
                None => {
                    &&& final(self).first_update_at() == Some(instant)
                    &&& final(self).last_update_at() == Some(instant)
                    &&& final(self).spec_delta() == old(self).spec_delta()
                    &&& final(self).spec_elapsed() == old(self).spec_elapsed()
                },
                Some(last) => {
                    let delta: nat = if last@ <= instant@ {
                        (instant@ - last@) as nat
                    } else {
                        0
                    };
                    &&& final(self).first_update_at() == old(self).first_update_at()
                    &&& final(self).last_update_at() == Some(last)
                    &&& final(self).spec_delta() == delta
                    &&& final(self).spec_elapsed() == old(self).spec_elapsed() + delta
                },
            },
    {
        let last_update = match self.context().last_update {
            Some(last) => last,
            None => {
                let context = self.context_mut();
                context.first_update = Some(instant);
                context.last_update = Some(instant);
                return;
            },
        };
        let delta = instant.saturating_duration_since(last_update);
        self.advance_by(delta);
        self.context_mut().last_update = Some(last_update);
    }

    /// When the clock started.
    pub fn startup(&self) -> (i: Instant)
        ensures
            i == self.startup_at(),
    {
        self.context().startup
    }

    /// The instant of the first update, if any.
    pub fn first_update(&self) -> (i: Option<Instant>)
        ensures
            i == self.first_update_at(),
    {
        self.context().first_update
    }

    /// The instant recorded as the last update, if any.
    pub fn last_update(&self) -> (i: Option<Instant>)
        ensures
            i == self.last_update_at(),
    {
        self.context().last_update
    }
}

} // verus!
