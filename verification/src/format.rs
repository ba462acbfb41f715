//! Packed pixel-format codes.
use vstd::prelude::*;

use crate::link::intents::channels_of;
use crate::profile::ColorSpace;

verus! {

/// One 8-bit gray channel per pixel.
pub const TYPE_GRAY_8: u32 = 0x0003_0009;

/// Three 8-bit channels (R, G, B) per pixel.
pub const TYPE_RGB_8: u32 = 0x0004_0019;

/// Four 8-bit channels (C, M, Y, K) per pixel.
pub const TYPE_CMYK_8: u32 = 0x0006_0021;

/// The packed 8-bit format for a device space, with its bytes per pixel:
/// gray, RGB and CMYK have one; other spaces have none here.
pub open spec fn device_format_of(space: ColorSpace) -> Option<(u32, usize)> {
    match space {
        ColorSpace::Gray => Some((TYPE_GRAY_8, 1)),
        ColorSpace::Rgb => Some((TYPE_RGB_8, 3)),
        ColorSpace::Cmyk => Some((TYPE_CMYK_8, 4)),
        _ => None,
    }
}

/// A packed 8-bit format and its bytes per pixel for `space`, or `None` for a
/// space without one.
pub fn device_format(space: ColorSpace) -> (f: Option<(u32, usize)>)
    ensures
        f == device_format_of(space),
{
    match space {
        ColorSpace::Gray => Some((TYPE_GRAY_8, 1)),
        ColorSpace::Rgb => Some((TYPE_RGB_8, 3)),
        ColorSpace::Cmyk => Some((TYPE_CMYK_8, 4)),
        _ => None,
    }
}

/// A device format packs exactly one byte per channel of its space.
pub proof fn lemma_device_format_bytes_are_channels(space: ColorSpace)
    ensures
        device_format_of(space) matches Some((_, bpp)) ==> channels_of(space) == Some(bpp as int),
{
}

/// The packed 8-bit device formats: gray, RGB and CMYK have one, whose code
/// is the pixel type shifted up 16 bits, the channel count shifted up 3 bits,
/// and one byte per sample; no other space has one.
pub proof fn lemma_device_format_table(space: ColorSpace)
    ensures
        space == ColorSpace::Gray ==> device_format_of(space) == Some(
            ((3 * 0x1_0000 + 1 * 8 + 1) as u32, 1usize),
        ),
        space == ColorSpace::Rgb ==> device_format_of(space) == Some(((4 * 0x1_0000 + 3 * 8 + 1) as u32, 3usize)),
        space == ColorSpace::Cmyk ==> device_format_of(space) == Some(
            ((6 * 0x1_0000 + 4 * 8 + 1) as u32, 4usize),
        ),
        !(space == ColorSpace::Gray || space == ColorSpace::Rgb || space == ColorSpace::Cmyk)
            ==> device_format_of(space) is None,
{
}

} // verus!
