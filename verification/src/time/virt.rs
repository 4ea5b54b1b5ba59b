//! The integer part of the virtual clock, which follows the wall clock one
//! bounded step at a time.

use vstd::prelude::*;

use crate::time::duration::Duration;

verus! {

/// The longest step the virtual clock takes unless another is set: 250
/// milliseconds.
pub const DEFAULT_MAX_DELTA_MILLIS: u64 = 250;

/// The step the virtual clock takes for a wall-clock step of `raw`: `raw`,
/// clamped to at most `max`.
pub fn clamp_delta(raw: Duration, max: Duration) -> (d: Duration)
    ensures
        d@ == if raw@ > max@ {
            max@
        } else {
            raw@
        },
{
    if raw.as_nanos() > max.as_nanos() {
        max
    } else {
        raw
    }
}

} // verus!
