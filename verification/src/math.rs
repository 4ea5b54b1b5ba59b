//! The vector and rotation types of the `glam` crate, which the engine
//! carries through its bookkeeping without reading them.

use vstd::prelude::*;

verus! {

/// `glam::Vec2`, a two-component vector; opaque here.
#[verifier::external_type_specification]
#[verifier::external_body]
pub struct ExVec2(glam::Vec2);

/// `glam::Vec3`, a three-component vector; opaque here.
#[verifier::external_type_specification]
#[verifier::external_body]
pub struct ExVec3(glam::Vec3);

/// `glam::Vec4`, a four-component vector; opaque here.
#[verifier::external_type_specification]
#[verifier::external_body]
pub struct ExVec4(glam::Vec4);

/// `glam::Quat`, a rotation; opaque here.
#[verifier::external_type_specification]
#[verifier::external_body]
pub struct ExQuat(glam::Quat);

} // verus!
