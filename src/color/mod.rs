use vstd::prelude::*;

verus! {

/// The weighted mean of a foreground and a background channel, the foreground
/// weighted by `alpha` out of 255.
pub open spec fn mix_spec(foreground: int, background: int, alpha: int) -> int {
    (foreground * alpha + background * (255 - alpha)) / 255
}

/// A color with an opacity: red, green, blue, alpha.
#[derive(Debug, Copy, Clone, PartialEq, Eq)]
pub struct Rgba([u8; 4]);

impl View for Rgba {
    type V = Seq<u8>;

    closed spec fn view(&self) -> Seq<u8> {
        self.0@
    }
}

impl Rgba {
    /// This color laid over `background`, channel by channel.
    pub fn blend(&self, background: Rgb) -> (r: Rgb)
        ensures
            r@ == seq![
                mix_spec(self@[0] as int, background@[0] as int, self@[3] as int) as u8,
                mix_spec(self@[1] as int, background@[1] as int, self@[3] as int) as u8,
                mix_spec(self@[2] as int, background@[2] as int, self@[3] as int) as u8,
            ],
            r@[0] == mix_spec(self@[0] as int, background@[0] as int, self@[3] as int),
            r@[1] == mix_spec(self@[1] as int, background@[1] as int, self@[3] as int),
            r@[2] == mix_spec(self@[2] as int, background@[2] as int, self@[3] as int),
    {
        let alpha = self.0[3] as u32;
        let red = Self::mix(self.0[0] as u32, background.0[0] as u32, alpha);
        let green = Self::mix(self.0[1] as u32, background.0[1] as u32, alpha);
        let blue = Self::mix(self.0[2] as u32, background.0[2] as u32, alpha);
        let r = Rgb([red, green, blue]);
        assert(r@ =~= seq![red, green, blue]);
        r
    }

    fn mix(foreground: u32, background: u32, foreground_alpha: u32) -> (r: u8)
        requires
            foreground <= 255,
            background <= 255,
            foreground_alpha <= 255,
        ensures
            r == mix_spec(foreground as int, background as int, foreground_alpha as int),
    {
        proof {
            assert(foreground * foreground_alpha <= 255 * foreground_alpha) by (nonlinear_arith)
                requires
                    foreground <= 255,
            ;
            assert(background * (255 - foreground_alpha) <= 255 * (255 - foreground_alpha))
                by (nonlinear_arith)
                requires
                    background <= 255,
                    foreground_alpha <= 255,
            ;
        }
        let result = (foreground * foreground_alpha + background * (255 - foreground_alpha)) / 255;
        result as u8
    }
}

/// An opaque color: red, green, blue.
#[derive(Debug, Copy, Clone, PartialEq, Eq)]
pub struct Rgb([u8; 3]);

impl View for Rgb {
    type V = Seq<u8>;

    closed spec fn view(&self) -> Seq<u8> {
        self.0@
    }
}

impl Rgb {
    pub fn new(red: u8, green: u8, blue: u8) -> (r: Self)
        ensures
            r@ == seq![red, green, blue],
            r@[0] == red,
            r@[1] == green,
            r@[2] == blue,
    {
        let r = Self([red, green, blue]);
        assert(r@ =~= seq![red, green, blue]);
        r
    }

    /// This color with the opacity `alpha`.
    pub fn with_alpha(&self, alpha: Alpha) -> (r: Rgba)
        ensures
            r@ == seq![self@[0], self@[1], self@[2], alpha@],
    {
        let r = Rgba([self.0[0], self.0[1], self.0[2], alpha.0]);
        assert(r@ =~= seq![self@[0], self@[1], self@[2], alpha@]);
        r
    }

    pub fn red(&self) -> (r: u8)
        ensures
            r == self@[0],
    {
        self.0[0]
    }

    pub fn green(&self) -> (r: u8)
        ensures
            r == self@[1],
    {
        self.0[1]
    }

    pub fn blue(&self) -> (r: u8)
        ensures
            r == self@[2],
    {
        self.0[2]
    }
}

/// An opacity, from 0 (transparent) to 255 (opaque).
#[derive(Debug, Copy, Clone, PartialEq, Eq)]
pub struct Alpha(u8);

impl View for Alpha {
    type V = u8;

    closed spec fn view(&self) -> u8 {
        self.0
    }
}

impl Alpha {
    pub fn new(alpha: u8) -> (r: Self)
        ensures
            r@ == alpha,
    {
        Self(alpha)
    }
}

} // verus!
