//! The CPU side of rendering: meshes and their vertex formats, models,
//! per-draw instances, materials' texture slots, and the growth of the
//! staging buffers that feed the GPU.

pub mod color;
pub use color::Color;

pub mod vertex;
pub use vertex::Vertex;

pub mod mesh;
pub use mesh::{Mesh, MeshParts, VertexFormat};

pub mod growth;

pub mod instance;
pub use instance::Instance as MeshInstance;

pub mod material;
pub use material::{MaterialFlags, MaterialTextures, TextureSlots};

pub mod model;
pub use model::Model;

pub mod transform;
pub use transform::Transform;

pub mod object;
pub use object::Object;

pub mod buffer;
pub use buffer::{InstanceWriter, MeshWriter};

pub mod surface;
