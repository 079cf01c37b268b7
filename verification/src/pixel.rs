use vstd::prelude::*;

verus! {

/// One image pixel: four 8-bit channels, red, green, blue and alpha.
/// The normalized channel value is the 8-bit value divided by 255, so every
/// scalar derived from a pixel is an exact rational over these integers.
#[derive(Clone, Copy, PartialEq, Eq, Structural, Debug)]
pub struct Pixel {
    pub r: u8,
    pub g: u8,
    pub b: u8,
    pub a: u8,
}

/// The pixel with the given (red, green, blue, alpha) channels.
pub open spec fn pix(t: (u8, u8, u8, u8)) -> Pixel {
    Pixel { r: t.0, g: t.1, b: t.2, a: t.3 }
}

impl Pixel {
    /// Largest of the three color channels; alpha is excluded.
    pub open spec fn spec_max_rgb(self) -> int {
        if self.r >= self.g && self.r >= self.b {
            self.r as int
        } else if self.g >= self.b {
            self.g as int
        } else {
            self.b as int
        }
    }

    /// Smallest of the three color channels; alpha is excluded.
    pub open spec fn spec_min_rgb(self) -> int {
        if self.r <= self.g && self.r <= self.b {
            self.r as int
        } else if self.g <= self.b {
            self.g as int
        } else {
            self.b as int
        }
    }

    /// Largest color channel, as an 8-bit value.
    pub fn max_rgb(&self) -> (m: u8)
        ensures
            m as int == self.spec_max_rgb(),
    {
        let mut m = self.r;
        if self.g > m {
            m = self.g;
        }
        if self.b > m {
            m = self.b;
        }
        m
    }

    /// Smallest color channel, as an 8-bit value.
    pub fn min_rgb(&self) -> (m: u8)
        ensures
            m as int == self.spec_min_rgb(),
    {
        let mut m = self.r;
        if self.g < m {
            m = self.g;
        }
        if self.b < m {
            m = self.b;
        }
        m
    }
}

} // verus!
