//! Clocks: a generic clock that tracks the last step and the total elapsed
//! span, specialised into a fixed-step clock and a wall clock.

pub mod duration;
pub use duration::Duration;

pub mod clock;
pub use clock::Time;

pub mod fixed;
pub use fixed::Fixed;


pub mod virt;

pub mod wall;
pub use wall::{Instant, Real};

