//! Registries of loaded assets, each keyed by the asset's id.

pub mod asset_map;
pub use asset_map::{AssetKey, AssetMap};

pub mod documents;
pub use documents::{Gltf, Id as GltfId};

pub mod materials;
pub use materials::{Id as MaterialId, Materials};

pub mod textures;
pub use textures::{Id as TextureId, Textures};

pub mod models;
pub use models::{Id as ModelId, Model, Models};

pub mod loader;
pub use loader::Loader;
