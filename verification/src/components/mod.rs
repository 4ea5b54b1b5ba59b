//! Per-entity components whose frame preparation is pure bookkeeping.

pub mod mesh_renderer;
pub use mesh_renderer::{MeshRenderer, PreparedMesh};
