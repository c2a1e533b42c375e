//! Resolution and iteration-bound policy: how many samples a pass computes,
//! how far each sample is replicated, and how deep each kernel may iterate.

use vstd::prelude::*;
use crate::config::{Config, FractalType, RenderQuality};

verus! {

/// Width of the output frame in pixels.
pub const MAX_WIDTH: usize = 3200;

/// Height of the output frame in pixels.
pub const MAX_HEIGHT: usize = 2000;

/// Edge length of the pixel block that one preview sample fills.
pub const PREVIEW_SCALE: usize = 4;

/// Iteration bound of the escape-time families before any zoom boost.
pub const ESCAPE_ITERATIONS: u8 = 255;

/// Iteration bound of the Newton-type families.
pub const NEWTON_ITERATIONS: u8 = 32;

/// `(width, height, replication)` for a quality: preview samples a quarter of
/// the frame in each direction and fills 4x4 blocks, full samples every pixel.
pub open spec fn spec_dimensions(quality: RenderQuality) -> (usize, usize, usize) {
    match quality {
        RenderQuality::Preview => (800, 500, 4),
        RenderQuality::Full => (3200, 2000, 1),
    }
}

/// Eight-bit addition that stops at 255.
pub open spec fn saturating_sum(a: u8, b: u8) -> u8 {
    if a + b > 255 {
        255u8
    } else {
        (a + b) as u8
    }
}

/// The iteration bound of a family, given the zoom boost
/// `floor(max(log2(zoom), 0) * 32)` clipped to eight bits. Newton-type families
/// ignore the boost; the others add it to 255 with saturation.
pub open spec fn spec_max_iterations(fractal: FractalType, zoom_boost: u8) -> u8 {
    if fractal.spec_is_convergence() {
        NEWTON_ITERATIONS
    } else {
        saturating_sum(ESCAPE_ITERATIONS, zoom_boost)
    }
}

/// What one render pass needs to know before any sample is evaluated.
#[derive(Clone, Copy, Debug, PartialEq, Eq, Structural)]
pub struct RenderPlan {
    pub fractal: FractalType,
    pub width: usize,
    pub height: usize,
    pub stride: usize,
    pub max_iter: u8,
}

/// Colour index of the cube root of unity that a converged Newton orbit
/// landed on: the first root it is near decides, and an orbit near none of
/// them is left unclassified.
pub open spec fn spec_root_index(near_one: bool, near_upper: bool, near_lower: bool) -> u8 {
    if near_one {
        85
    } else if near_upper {
        170
    } else if near_lower {
        255
    } else {
        0
    }
}

/// The plan that a configuration and a zoom boost determine.
pub open spec fn spec_plan(config: Config, zoom_boost: u8) -> RenderPlan {
    RenderPlan {
        fractal: config.fractal,
        width: spec_dimensions(config.quality).0,
        height: spec_dimensions(config.quality).1,
        stride: spec_dimensions(config.quality).2,
        max_iter: spec_max_iterations(config.fractal, zoom_boost),
    }
}

/// Sample grid size and replication factor for a quality.
pub fn get_dimensions(quality: RenderQuality) -> (r: (usize, usize, usize))
    ensures
        r == spec_dimensions(quality),
        r.0 * r.2 == MAX_WIDTH,
        r.1 * r.2 == MAX_HEIGHT,
{
    match quality {
        RenderQuality::Preview => (
            MAX_WIDTH / PREVIEW_SCALE,
            MAX_HEIGHT / PREVIEW_SCALE,
            PREVIEW_SCALE,
        ),
        RenderQuality::Full => (MAX_WIDTH, MAX_HEIGHT, 1),
    }
}

/// Iteration bound for a family at a given zoom boost.
pub fn get_max_iterations(fractal: FractalType, zoom_boost: u8) -> (r: u8)
    ensures
        r == spec_max_iterations(fractal, zoom_boost),
        fractal.spec_is_convergence() ==> r == 32,
        !fractal.spec_is_convergence() ==> r == 255,
{
    match fractal {
        FractalType::Newton | FractalType::RainbowNewtonSet => NEWTON_ITERATIONS,
        _ => ESCAPE_ITERATIONS.saturating_add(zoom_boost),
    }
}

/// Colour index for a converged Newton orbit, given which of the roots `1`,
/// `-1/2 + i*sqrt(3)/2` and `-1/2 - i*sqrt(3)/2` it is near.
pub fn root_index(near_one: bool, near_upper: bool, near_lower: bool) -> (index: u8)
    ensures
        index == spec_root_index(near_one, near_upper, near_lower),
        index == 0 <==> !near_one && !near_upper && !near_lower,
{
    if near_one {
        85
    } else if near_upper {
        170
    } else if near_lower {
        255
    } else {
        0
    }
}

/// Fixes family, sample grid, replication factor and iteration bound for one
/// pass, reading the configuration once.
pub fn plan_render(config: &Config, zoom_boost: u8) -> (plan: RenderPlan)
    ensures
        plan == spec_plan(*config, zoom_boost),
{
    let (width, height, stride) = get_dimensions(config.quality);
    let max_iter = get_max_iterations(config.fractal, zoom_boost);
    RenderPlan { fractal: config.fractal, width, height, stride, max_iter }
}

/// The iteration bound never decreases as the zoom boost grows, whatever the
/// family.
pub proof fn lemma_max_iterations_monotone(fractal: FractalType, low: u8, high: u8)
    requires
        low <= high,
    ensures
        spec_max_iterations(fractal, low) <= spec_max_iterations(fractal, high),
{
}

/// Each escape-time family iterates exactly 255 times at every zoom boost:
/// the bound starts at the top of its eight-bit range, so a boost cannot
/// raise it and the lack of one, as at zoom one and below, does not lower it.
pub proof fn lemma_escape_bound_is_constant(fractal: FractalType, zoom_boost: u8)
    requires
        !fractal.spec_is_convergence(),
    ensures
        spec_max_iterations(fractal, zoom_boost) == 255,
{
}

/// Both qualities address the whole frame: the sample grid times the
/// replication factor is the frame size.
pub proof fn lemma_dimensions_cover_frame(quality: RenderQuality)
    ensures
        spec_dimensions(quality).0 * spec_dimensions(quality).2 == MAX_WIDTH,
        spec_dimensions(quality).1 * spec_dimensions(quality).2 == MAX_HEIGHT,
        spec_dimensions(quality).2 > 0,
{
}

} // verus!
