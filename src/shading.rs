use vstd::prelude::*;

use crate::color::{saturated_color_sum, Color};

verus! {

/// The deepest recursion level at which a ray is still traced; a ray cast
/// deeper than this sees the sky.
pub const MAX_DEPTH: u32 = 3;

/// The colour seen by a ray that leaves the scene or exhausts its depth.
pub open spec fn spec_sky_color() -> Color {
    Color { r: 68, g: 142, b: 228 }
}

pub fn sky_color() -> (c: Color)
    ensures
        c == spec_sky_color(),
{
    Color::new(68, 142, 228)
}

/// Whether a ray at recursion level `depth` is cut off and returns the sky.
pub fn depth_exhausted(depth: u32) -> (r: bool)
    ensures
        r == (depth > MAX_DEPTH),
{
    depth > MAX_DEPTH
}

/// Adds one light's weighted contributions to the running colour: the local
/// diffuse and specular term, then the reflected colour, then the refracted
/// colour, each addition saturating per channel.
pub fn accumulate(color: Color, local: Color, reflected: Color, refracted: Color) -> (c: Color)
    ensures
        c == saturated_color_sum(
            saturated_color_sum(saturated_color_sum(color, local), reflected),
            refracted,
        ),
{
    color.add(&local).add(&reflected).add(&refracted)
}

} // verus!
