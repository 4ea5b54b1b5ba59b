//! The scene's shared GPU-side bookkeeping: where each uploaded mesh lives
//! in the shared vertex and index buffers.

pub mod meshes;
pub use meshes::{MeshIndex, Meshes};

pub mod schedules;
pub use schedules::{FixedMainScheduleOrder, Label, MainScheduleOrder};
