use vstd::prelude::*;

verus! {

/// Aspect correction as exact fractions: the shader scales x by
/// `x_numerator / denominator` and y by `y_numerator / denominator`, so that the
/// shorter screen axis spans the unit range and the longer one is wider in proportion.
#[derive(Clone, Copy, Debug, PartialEq, Eq, Structural)]
pub struct AspectScale {
    pub x_numerator: u32,
    pub y_numerator: u32,
    pub denominator: u32,
}

pub open spec fn min_u32(a: u32, b: u32) -> u32 {
    if a <= b {
        a
    } else {
        b
    }
}

/// The aspect correction of a `width` by `height` window.
pub open spec fn aspect_of(width: u32, height: u32) -> AspectScale {
    AspectScale { x_numerator: width, y_numerator: height, denominator: min_u32(width, height) }
}

/// Aspect correction for a window of `width` by `height` pixels.
pub fn aspect_scale(width: u32, height: u32) -> (r: AspectScale)
    ensures
        r == aspect_of(width, height),
{
    let shorter = if width <= height {
        width
    } else {
        height
    };
    AspectScale { x_numerator: width, y_numerator: height, denominator: shorter }
}

/// A square window needs no correction: both fractions are exactly one.
pub proof fn lemma_square_window_unit_scale(side: u32)
    ensures
        aspect_of(side, side).x_numerator == aspect_of(side, side).denominator,
        aspect_of(side, side).y_numerator == aspect_of(side, side).denominator,
{
}

/// The shorter axis always gets the fraction one, and the longer one a fraction
/// of at least one.
pub proof fn lemma_shorter_axis_unit_scale(width: u32, height: u32)
    ensures
        width <= height ==> aspect_of(width, height).x_numerator == aspect_of(
            width,
            height,
        ).denominator,
        height <= width ==> aspect_of(width, height).y_numerator == aspect_of(
            width,
            height,
        ).denominator,
        aspect_of(width, height).x_numerator >= aspect_of(width, height).denominator,
        aspect_of(width, height).y_numerator >= aspect_of(width, height).denominator,
{
}

} // verus!
