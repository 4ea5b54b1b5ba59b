use vstd::prelude::*;

verus! {

/// Where an object is: its position, rotation and scale.
#[derive(Clone, Copy, Debug)]
pub struct Transform {
    pub position: glam::Vec3,
    pub rotation: glam::Quat,
    pub scale: glam::Vec3,
}

} // verus!
