//! Colour mapping: packing channels into opaque pixels and the sector table of
//! the hue wheel.

use vstd::prelude::*;

verus! {

/// Opaque black, the colour of every interior sample.
pub const OPAQUE_BLACK: u32 = 0xFF00_0000;

/// What the colour mapper learned about one sample point: either it is
/// interior (the kernel reported index zero), or it has the given colour
/// channels.
#[derive(Clone, Copy, Debug, PartialEq, Eq, Structural)]
pub enum Shade {
    Interior,
    Lit { r: u8, g: u8, b: u8 },
}

/// The role a channel plays inside one sector of the hue wheel: it carries the
/// full chroma, the intermediate blend, or nothing above the floor.
#[derive(Clone, Copy, Debug, PartialEq, Eq, Structural)]
pub enum Level {
    Chroma,
    Blend,
    Floor,
}

/// The big-endian word `[0xFF, r, g, b]`.
pub open spec fn spec_pack(r: u8, g: u8, b: u8) -> u32 {
    (0xFF00_0000 + r * 0x1_0000 + g * 0x100 + b) as u32
}

/// The pixel that a shade maps to.
pub open spec fn spec_pixel(shade: Shade) -> u32 {
    match shade {
        Shade::Interior => OPAQUE_BLACK,
        Shade::Lit { r, g, b } => spec_pack(r, g, b),
    }
}

/// Roles of the red, green and blue channels in each of the six 60-degree
/// sectors; every sector from the fifth on uses the last arrangement.
pub open spec fn spec_sector_levels(sector: int) -> (Level, Level, Level) {
    if sector == 0 {
        (Level::Chroma, Level::Blend, Level::Floor)
    } else if sector == 1 {
        (Level::Blend, Level::Chroma, Level::Floor)
    } else if sector == 2 {
        (Level::Floor, Level::Chroma, Level::Blend)
    } else if sector == 3 {
        (Level::Floor, Level::Blend, Level::Chroma)
    } else if sector == 4 {
        (Level::Blend, Level::Floor, Level::Chroma)
    } else {
        (Level::Chroma, Level::Floor, Level::Blend)
    }
}

/// Packs three channels under a fully opaque alpha byte.
pub fn pack(r: u8, g: u8, b: u8) -> (p: u32)
    ensures
        p == spec_pack(r, g, b),
        p >> 24 == 0xFF,
        (p >> 16) & 0xFF == r,
        (p >> 8) & 0xFF == g,
        p & 0xFF == b,
{
    let p: u32 = 0xFF00_0000u32 | ((r as u32) << 16) | ((g as u32) << 8) | (b as u32);
    assert(p == 0xFF00_0000 + r * 0x1_0000 + g * 0x100 + b && p >> 24 == 0xFF && (p >> 16) & 0xFF
        == r && (p >> 8) & 0xFF == g && p & 0xFF == b) by (bit_vector)
        requires
            p == 0xFF00_0000u32 | ((r as u32) << 16) | ((g as u32) << 8) | (b as u32),
    ;
    p
}

/// Maps a shade to its pixel: interior samples are exactly opaque black, and
/// every pixel is fully opaque.
pub fn pixel(shade: Shade) -> (p: u32)
    ensures
        p == spec_pixel(shade),
        shade is Interior ==> p == 0xFF00_0000,
        p >> 24 == 0xFF,
{
    match shade {
        Shade::Interior => {
            assert(0xFF00_0000u32 >> 24 == 0xFF) by (bit_vector);
            OPAQUE_BLACK
        },
        Shade::Lit { r, g, b } => pack(r, g, b),
    }
}

/// Channel roles for a hue given in whole degrees.
pub fn sector_levels(hue_degrees: u32) -> (levels: (Level, Level, Level))
    ensures
        levels == spec_sector_levels(hue_degrees as int / 60),
{
    match hue_degrees / 60 {
        0 => (Level::Chroma, Level::Blend, Level::Floor),
        1 => (Level::Blend, Level::Chroma, Level::Floor),
        2 => (Level::Floor, Level::Chroma, Level::Blend),
        3 => (Level::Floor, Level::Blend, Level::Chroma),
        4 => (Level::Blend, Level::Floor, Level::Chroma),
        _ => (Level::Chroma, Level::Floor, Level::Blend),
    }
}

} // verus!
