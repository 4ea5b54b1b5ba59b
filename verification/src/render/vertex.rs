use vstd::prelude::*;

verus! {

/// A vertex of a model: position, texture coordinates, and the normal,
/// tangent and bitangent of its surface.
#[derive(Clone, Copy, Debug)]
pub struct Vertex {
    pub position: glam::Vec3,
    pub tex_coords: glam::Vec2,
    pub normal: glam::Vec3,
    pub tangent: glam::Vec3,
    pub bitangent: glam::Vec3,
}

} // verus!
