use vstd::prelude::*;

verus! {

/// A color as four normalized components.
#[derive(Clone, Copy, Debug)]
pub struct Color {
    pub color: glam::Vec4,
}

impl Color {
    /// The color of the given normalized components.
    pub fn from_rgba_normalized(color: glam::Vec4) -> (c: Color)
        ensures
            c.color == color,
    {
        Color { color }
    }
}

} // verus!
