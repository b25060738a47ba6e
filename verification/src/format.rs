//! Pixel format tags: four-character codes packed into a 32-bit integer in
//! the byte order the engine expects (first character in the lowest byte).
//!
//! Only the two single-channel 8-bit tags are defined here; any other tag may
//! be passed through numerically, but its pixel geometry is then unknown to
//! this layer.

use vstd::prelude::*;

verus! {

/// The packed tag "Y800": single-channel 8-bit luma.
pub const FORMAT_Y800: u32 = 808466521;

/// The packed tag "GRAY": raw 8-bit grayscale.
pub const FORMAT_GRAY: u32 = 1497453127;

/// A four-character tag packed with its first character in the lowest byte.
pub open spec fn fourcc(a: u8, b: u8, c: u8, d: u8) -> int {
    a + b * 0x100 + c * 0x10000 + d * 0x1000000
}

/// Packs a four-character format tag the way the engine reads it.
pub fn pack_format(a: u8, b: u8, c: u8, d: u8) -> (r: u32)
    ensures
        r as int == fourcc(a, b, c, d),
{
    (a as u32) + (b as u32) * 0x100 + (c as u32) * 0x10000 + (d as u32) * 0x1000000
}

/// Law: the two defined tags are exactly the packings of their four
/// characters ("Y800" and "GRAY").
pub proof fn lemma_defined_tags_pack()
    ensures
        FORMAT_Y800 as int == fourcc(89, 56, 48, 48),
        FORMAT_GRAY as int == fourcc(71, 82, 65, 89),
{
}

/// How many bytes one pixel takes under a format tag, where this layer knows
/// it; `None` for tags that are only passed through.
pub open spec fn format_bpp(format: u32) -> Option<nat> {
    if format == FORMAT_Y800 || format == FORMAT_GRAY {
        Some(1nat)
    } else {
        None
    }
}

/// Whether a byte count matches the geometry a format tag implies; a tag with
/// unknown pixel size constrains nothing at this layer.
pub open spec fn geometry_matches(format: u32, width: u32, height: u32, len: nat) -> bool {
    match format_bpp(format) {
        Some(bpp) => len == width * height * bpp,
        None => true,
    }
}

} // verus!
