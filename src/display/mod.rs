use vstd::prelude::*;

pub mod pixel;

verus! {

/// Bits of one pixel that the display writes.
pub const BITS_PER_PIXEL: u32 = 32;
pub const RED_OFFSET: u32 = 16;
pub const GREEN_OFFSET: u32 = 8;
pub const BLUE_OFFSET: u32 = 0;

/// How a framebuffer lays out its pixels, as its screen information reports it.
#[derive(Debug, Copy, Clone, PartialEq, Eq)]
pub struct PixelLayout {
    pub bits_per_pixel: u32,
    pub red_offset: u32,
    pub green_offset: u32,
    pub blue_offset: u32,
    pub transparency_length: u32,
}

impl PixelLayout {
    /// Four bytes per pixel, blue, green, red and one unused byte, no alpha channel:
    /// the only layout the display writes.
    pub fn is_supported(&self) -> (r: bool)
        ensures
            r == (self.bits_per_pixel == BITS_PER_PIXEL && self.red_offset == RED_OFFSET
                && self.green_offset == GREEN_OFFSET && self.blue_offset == BLUE_OFFSET
                && self.transparency_length == 0),
    {
        self.bits_per_pixel == BITS_PER_PIXEL && self.red_offset == RED_OFFSET
            && self.green_offset == GREEN_OFFSET && self.blue_offset == BLUE_OFFSET
            && self.transparency_length == 0
    }
}

} // verus!
