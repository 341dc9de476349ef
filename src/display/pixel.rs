use vstd::prelude::*;

use crate::color::Rgb;

verus! {

/// One pixel of the framebuffer, four bytes: blue, green, red, unused.
#[derive(Debug, Copy, Clone)]
pub struct DisplayPixel([u8; 4]);

impl View for DisplayPixel {
    type V = Seq<u8>;

    closed spec fn view(&self) -> Seq<u8> {
        self.0@
    }
}

impl DisplayPixel {
    /// The pixel stored in `chunk`.
    pub fn from_frame_chunk(chunk: [u8; 4]) -> (r: Self)
        ensures
            r@ == chunk@,
    {
        Self(chunk)
    }

    /// The bytes to store back in the frame.
    pub fn frame_chunk(&self) -> (r: [u8; 4])
        ensures
            r@ == self@,
    {
        self.0
    }

    /// Stores `rgb` in the pixel's blue, green and red bytes; the fourth is kept.
    pub fn set_rgb(&mut self, rgb: Rgb)
        ensures
            final(self)@ == seq![rgb@[2], rgb@[1], rgb@[0], old(self)@[3]],
    {
        self.0[0] = rgb.blue();
        self.0[1] = rgb.green();
        self.0[2] = rgb.red();
        assert(self@ =~= seq![rgb@[2], rgb@[1], rgb@[0], old(self)@[3]]);
    }
}

} // verus!
