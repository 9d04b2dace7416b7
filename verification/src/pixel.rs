//! The pixel-format request template. The platform matches this template to
//! the nearest available format, so zero-valued bit fields mean "don't
//! care", not "zero bits"; only the fields pinned to nonzero values state an
//! actual capability request.
use vstd::prelude::*;

verus! {

/// Flag: the format can draw to a window.
pub const PFD_DRAW_TO_WINDOW: u32 = 0x4;

/// Flag: the format supports OpenGL rendering.
pub const PFD_SUPPORT_OPENGL: u32 = 0x20;

/// Flag: the format is double-buffered.
pub const PFD_DOUBLEBUFFER: u32 = 0x1;

/// Pixel type: RGBA.
pub const PFD_TYPE_RGBA: u8 = 0;

/// Layer type: the main plane.
pub const PFD_MAIN_PLANE: u8 = 0;

/// A pixel-format descriptor in the platform's layout: a request template
/// describing the desired surface capabilities.
#[derive(Clone, Copy, Debug, PartialEq, Eq)]
pub struct PixelFormatDescriptor {
    /// Size of the platform structure in bytes.
    pub size: u16,
    /// Version of the structure layout.
    pub version: u16,
    /// Capability flags.
    pub flags: u32,
    /// Pixel type requested.
    pub pixel_type: u8,
    /// Total color bits requested.
    pub color_bits: u8,
    /// Red channel bits; zero means "don't care".
    pub red_bits: u8,
    /// Red channel shift; zero means "don't care".
    pub red_shift: u8,
    /// Green channel bits; zero means "don't care".
    pub green_bits: u8,
    /// Green channel shift; zero means "don't care".
    pub green_shift: u8,
    /// Blue channel bits; zero means "don't care".
    pub blue_bits: u8,
    /// Blue channel shift; zero means "don't care".
    pub blue_shift: u8,
    /// Alpha channel bits; zero means "don't care".
    pub alpha_bits: u8,
    /// Alpha channel shift; zero means "don't care".
    pub alpha_shift: u8,
    /// Accumulation buffer bits; zero means "don't care".
    pub accum_bits: u8,
    /// Accumulation red bits; zero means "don't care".
    pub accum_red_bits: u8,
    /// Accumulation green bits; zero means "don't care".
    pub accum_green_bits: u8,
    /// Accumulation blue bits; zero means "don't care".
    pub accum_blue_bits: u8,
    /// Accumulation alpha bits; zero means "don't care".
    pub accum_alpha_bits: u8,
    /// Depth buffer bits requested.
    pub depth_bits: u8,
    /// Stencil buffer bits requested.
    pub stencil_bits: u8,
    /// Auxiliary buffers; zero means "don't care".
    pub aux_buffers: u8,
    /// Layer the format draws to.
    pub layer_type: u8,
    /// Reserved field, always zero.
    pub reserved: u8,
    /// Layer mask, unused here.
    pub layer_mask: u32,
    /// Visible mask, unused here.
    pub visible_mask: u32,
    /// Damage mask, unused here.
    pub damage_mask: u32,
}

/// The fixed template this system requests: a double-buffered, RGBA-capable,
/// OpenGL-drawable format with 32 color bits, a 24-bit depth buffer and an
/// 8-bit stencil buffer, on the main plane.
pub fn pixel_format_template() -> (r: PixelFormatDescriptor)
    ensures
        r.size == 40,
        r.version == 1,
        r.flags == PFD_DRAW_TO_WINDOW | PFD_SUPPORT_OPENGL | PFD_DOUBLEBUFFER,
        r.pixel_type == PFD_TYPE_RGBA,
        r.color_bits == 32,
        r.depth_bits == 24,
        r.stencil_bits == 8,
        r.layer_type == PFD_MAIN_PLANE,
        r.red_bits == 0 && r.red_shift == 0 && r.green_bits == 0 && r.green_shift == 0,
        r.blue_bits == 0 && r.blue_shift == 0 && r.alpha_bits == 0 && r.alpha_shift == 0,
        r.accum_bits == 0 && r.accum_red_bits == 0 && r.accum_green_bits == 0,
        r.accum_blue_bits == 0 && r.accum_alpha_bits == 0,
        r.aux_buffers == 0 && r.reserved == 0,
        r.layer_mask == 0 && r.visible_mask == 0 && r.damage_mask == 0,
{
    PixelFormatDescriptor {
        size: 40,
        version: 1,
        flags: PFD_DRAW_TO_WINDOW | PFD_SUPPORT_OPENGL | PFD_DOUBLEBUFFER,
        pixel_type: PFD_TYPE_RGBA,
        color_bits: 32,
        red_bits: 0,
        red_shift: 0,
        green_bits: 0,
        green_shift: 0,
        blue_bits: 0,
        blue_shift: 0,
        alpha_bits: 0,
        alpha_shift: 0,
        accum_bits: 0,
        accum_red_bits: 0,
        accum_green_bits: 0,
        accum_blue_bits: 0,
        accum_alpha_bits: 0,
        depth_bits: 24,
        stencil_bits: 8,
        aux_buffers: 0,
        layer_type: PFD_MAIN_PLANE,
        reserved: 0,
        layer_mask: 0,
        visible_mask: 0,
        damage_mask: 0,
    }
}

} // verus!
