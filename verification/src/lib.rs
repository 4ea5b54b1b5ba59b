//! Verified core of the wormhole engine: the clocks that drive frames, the
//! input state machines, the asset registries, and the CPU-side bookkeeping
//! of meshes, instances and materials that the renderer uploads.

pub mod time;
pub mod input;
pub mod assets;
pub mod math;
pub mod render;
pub mod scene;
pub mod components;
pub mod object;
