//! Render configuration and the control surface that mutates it.

use vstd::prelude::*;

verus! {

/// The closed set of fractal families the rasterizer can draw.
#[derive(Clone, Copy, Debug, PartialEq, Eq, Structural)]
pub enum FractalType {
    Mandelbrot,
    Julia,
    BurningShip,
    Newton,
    RainbowNewtonSet,
    Tricorn,
    Phoenix,
    Celtic,
}

/// Sampling density of a render pass.
#[derive(Clone, Copy, Debug, PartialEq, Eq, Structural)]
pub enum RenderQuality {
    Preview,
    Full,
}

/// The visible rectangle of the complex plane. Each field holds the IEEE-754
/// single-precision bit pattern of the corresponding real number, so that the
/// configuration can be carried and compared exactly.
#[derive(Clone, Copy, Debug, PartialEq, Eq, Structural)]
pub struct ViewState {
    pub center_x: u32,
    pub center_y: u32,
    pub zoom: u32,
}

/// The complex parameter shared by the parameterised families, as the bit
/// patterns of its real and imaginary parts.
#[derive(Clone, Copy, Debug, PartialEq, Eq, Structural)]
pub struct FractalParameter {
    pub re: u32,
    pub im: u32,
}

/// Bit pattern of the single-precision value `1.0`.
pub const UNIT_BITS: u32 = 0x3F80_0000;

/// Bit pattern of the single-precision value `0.5`.
pub const HALF_BITS: u32 = 0x3F00_0000;

/// Bit pattern of the single-precision value `-0.5`.
pub const MINUS_HALF_BITS: u32 = 0xBF00_0000;

/// Everything a render pass reads before it starts.
#[derive(Clone, Copy, Debug, PartialEq, Eq, Structural)]
pub struct Config {
    pub fractal: FractalType,
    pub view: ViewState,
    pub quality: RenderQuality,
    pub parameter: FractalParameter,
}

/// The family selected by a host-supplied identifier; identifiers outside
/// `0..=7` select `Mandelbrot`.
pub open spec fn fractal_of_id(id: u8) -> FractalType {
    if id == 1 {
        FractalType::Julia
    } else if id == 2 {
        FractalType::BurningShip
    } else if id == 3 {
        FractalType::Newton
    } else if id == 4 {
        FractalType::RainbowNewtonSet
    } else if id == 5 {
        FractalType::Tricorn
    } else if id == 6 {
        FractalType::Phoenix
    } else if id == 7 {
        FractalType::Celtic
    } else {
        FractalType::Mandelbrot
    }
}

/// The quality selected by the host's boolean flag.
pub open spec fn quality_of_flag(high_quality: bool) -> RenderQuality {
    if high_quality {
        RenderQuality::Full
    } else {
        RenderQuality::Preview
    }
}

impl FractalType {
    /// Whether the family is a Newton-type convergence fractal.
    pub open spec fn spec_is_convergence(self) -> bool {
        self == FractalType::Newton || self == FractalType::RainbowNewtonSet
    }

    /// Whether the family is a Newton-type convergence fractal.
    #[verifier::when_used_as_spec(spec_is_convergence)]
    pub fn is_convergence(self) -> (r: bool)
        ensures
            r == self.spec_is_convergence(),
    {
        match self {
            FractalType::Newton | FractalType::RainbowNewtonSet => true,
            _ => false,
        }
    }
}

impl Config {
    /// The configuration a fresh renderer starts with: Mandelbrot, centred on
    /// the origin at zoom `1.0`, in preview quality, with the parameter
    /// `-0.5 + 0.5i`.
    pub open spec fn spec_initial() -> Config {
        Config {
            fractal: FractalType::Mandelbrot,
            view: ViewState { center_x: 0, center_y: 0, zoom: UNIT_BITS },
            quality: RenderQuality::Preview,
            parameter: FractalParameter { re: MINUS_HALF_BITS, im: HALF_BITS },
        }
    }

    /// The configuration before the host has set anything.
    pub fn initial() -> (c: Config)
        ensures
            c == Config::spec_initial(),
    {
        Config {
            fractal: FractalType::Mandelbrot,
            view: ViewState { center_x: 0, center_y: 0, zoom: UNIT_BITS },
            quality: RenderQuality::Preview,
            parameter: FractalParameter { re: MINUS_HALF_BITS, im: HALF_BITS },
        }
    }
}

/// Selects the active fractal family by identifier and leaves the rest of the
/// configuration alone.
pub fn set_fractal(config: &mut Config, fractal_type: u8)
    ensures
        final(config).fractal == fractal_of_id(fractal_type),
        final(config).view == old(config).view,
        final(config).quality == old(config).quality,
        final(config).parameter == old(config).parameter,
{
    config.fractal = match fractal_type {
        0 => FractalType::Mandelbrot,
        1 => FractalType::Julia,
        2 => FractalType::BurningShip,
        3 => FractalType::Newton,
        4 => FractalType::RainbowNewtonSet,
        5 => FractalType::Tricorn,
        6 => FractalType::Phoenix,
        7 => FractalType::Celtic,
        _ => FractalType::Mandelbrot,
    };
}

/// Replaces the view wholesale with the given bit patterns and leaves the rest
/// of the configuration alone.
pub fn set_view(config: &mut Config, x: u32, y: u32, zoom: u32)
    ensures
        final(config).view == (ViewState { center_x: x, center_y: y, zoom: zoom }),
        final(config).fractal == old(config).fractal,
        final(config).quality == old(config).quality,
        final(config).parameter == old(config).parameter,
{
    config.view.center_x = x;
    config.view.center_y = y;
    config.view.zoom = zoom;
}

/// Selects full quality for `true` and preview quality for `false`, and leaves
/// the rest of the configuration alone.
pub fn set_quality(config: &mut Config, high_quality: bool)
    ensures
        final(config).quality == quality_of_flag(high_quality),
        final(config).fractal == old(config).fractal,
        final(config).view == old(config).view,
        final(config).parameter == old(config).parameter,
{
    config.quality = match high_quality {
        true => RenderQuality::Full,
        false => RenderQuality::Preview,
    };
}

} // verus!
