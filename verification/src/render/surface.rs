//! The choices the renderer makes from what the GPU reports: how many
//! textures a material bind group may hold, which surface format to draw
//! into, and what to do when the surface cannot give a frame.

use vstd::prelude::*;

verus! {

/// The most textures a material bind group holds, whatever the device
/// allows.
pub const MAX_TEXTURE_COUNT: u32 = 131072;

/// The share of the device's sampled textures per shader stage that the
/// material bind group may take: one in this many.
pub const BGL_DIVISOR: u32 = 4;

/// The number of textures the material bind group holds on a device that
/// allows `max_sampled` sampled textures per shader stage: a quarter of
/// them, at most `MAX_TEXTURE_COUNT`.
pub fn material_texture_count(max_sampled: u32) -> (n: u32)
    ensures
        n == if max_sampled / BGL_DIVISOR <= MAX_TEXTURE_COUNT {
            max_sampled / BGL_DIVISOR
        } else {
            MAX_TEXTURE_COUNT
        },
{
    let share = max_sampled / BGL_DIVISOR;
    if share <= MAX_TEXTURE_COUNT {
        share
    } else {
        MAX_TEXTURE_COUNT
    }
}

/// The position of the surface format to draw into, among the formats the
/// surface supports (of which there is at least one), given whether each
/// is an sRGB format: the first sRGB one, or the first format where none
/// is.
pub fn choose_surface_format(is_srgb: &[bool]) -> (i: usize)
    requires
        is_srgb@.len() > 0,
    ensures
        i < is_srgb@.len(),
        forall|j: int| 0 <= j < i ==> !is_srgb@[j],
        is_srgb@[i as int] || (i == 0 && forall|j: int| 0 <= j < is_srgb@.len() ==> !is_srgb@[j]),
{
    let mut i: usize = 0;
    while i < is_srgb.len()
        invariant
            i <= is_srgb@.len(),
            forall|j: int| 0 <= j < i ==> !is_srgb@[j],
        decreases is_srgb@.len() - i,
    {
        if is_srgb[i] {
            return i;
        }
        i = i + 1;
    }
    0
}

/// Why the surface could not give a frame to draw into.
#[derive(Debug, Clone, Copy, PartialEq, Eq, Structural)]
pub enum SurfaceError {
    Timeout,
    Outdated,
    Lost,
    OutOfMemory,
}

/// What the renderer does when the surface cannot give a frame.
#[derive(Debug, Clone, Copy, PartialEq, Eq, Structural)]
pub enum SurfaceAction {
    /// Configure the surface again and skip the frame.
    Reconfigure,
    /// Skip the frame.
    Skip,
}

/// The action for a surface error: an outdated or lost surface is
/// configured again, a timeout skips the frame. Running out of GPU memory
/// ends the program, so no action is given for it.
pub fn surface_error_action(error: SurfaceError) -> (a: SurfaceAction)
    requires
        !(error is OutOfMemory),
    ensures
        (error is Outdated || error is Lost) <==> a == SurfaceAction::Reconfigure,
        error is Timeout <==> a == SurfaceAction::Skip,
{
    match error {
        SurfaceError::Outdated | SurfaceError::Lost => SurfaceAction::Reconfigure,
        _ => SurfaceAction::Skip,
    }
}

} // verus!
