use crate::color::{weighted_scalar, ColorMode};
use crate::pixel::Pixel;
use crate::scalar::{
    gradient_index, lemma_gradient_index_endpoints, lemma_gradient_index_in_range, Scalar,
};
use vstd::prelude::*;

verus! {

/// An ordered sequence of characters, darkest to brightest, that scalars are
/// mapped into.  A gradient always has at least two characters.
#[derive(Debug)]
pub struct Gradient {
    chars: Vec<char>,
}

impl View for Gradient {
    type V = Seq<char>;

    closed spec fn view(&self) -> Seq<char> {
        self.chars@
    }
}

impl Gradient {
    /// A gradient is well formed when it has at least two characters.
    pub open spec fn wf(self) -> bool {
        self@.len() >= 2
    }

    /// Builds a gradient from its ordered characters.  Fewer than two
    /// characters is a configuration error and yields nothing.
    pub fn new(chars: Vec<char>) -> (r: Option<Gradient>)
        ensures
            chars@.len() >= 2 ==> (r matches Some(g) && g.wf() && g@ == chars@),
            chars@.len() < 2 ==> r is None,
    {
        if chars.len() >= 2 {
            Some(Gradient { chars })
        } else {
            None
        }
    }

    /// Number of characters in the gradient.
    pub fn len(&self) -> (n: usize)
        ensures
            n == self@.len(),
    {
        self.chars.len()
    }

    /// Character at a given position.
    pub fn char_at(&self, i: usize) -> (c: char)
        requires
            i < self@.len(),
        ensures
            c == self@[i as int],
    {
        self.chars[i]
    }

    /// Character the scalar selects: position `round(scalar * (len - 1))`,
    /// with halves rounding up and the scalar clamped below at zero.
    pub fn to_ascii(&self, s: Scalar) -> (c: char)
        requires
            self.wf(),
            s.wf(),
        ensures
            c == self@[gradient_index(s.num as int, s.den as int, self@.len() as int)],
    {
        let len = self.chars.len();
        let n: u128 = if s.num < 0 {
            0
        } else {
            s.num as u128
        };
        let d: u128 = s.den as u128;
        proof {
            assert((2 * (n as int) * ((len - 1) as int) + (d as int)) < u128::MAX)
                by (nonlinear_arith)
                requires
                    0 <= (n as int) <= 0x4000_0000,
                    1 <= (d as int) <= 0x4000_0000,
                    1 <= ((len - 1) as int) <= 0xFFFF_FFFF_FFFF_FFFF,
            ;
        }
        let idx128: u128 = (2 * n * ((len - 1) as u128) + d) / (2 * d);
        proof {
            lemma_gradient_index_in_range(s.num as int, s.den as int, len as int);
            assert(idx128 as int == gradient_index(s.num as int, s.den as int, len as int));
        }
        let idx: usize = idx128 as usize;
        self.chars[idx]
    }
}

/// The character one pixel produces: its alpha-weighted mode scalar mapped
/// through the gradient.
pub open spec fn pixel_char(mode: ColorMode, p: Pixel, g: Seq<char>) -> char {
    let s = weighted_scalar(mode, p);
    g[gradient_index(s.0, s.1, g.len() as int)]
}

/// A scalar of exactly zero selects the first gradient character, and a
/// scalar of exactly one selects the last, for every gradient of at least
/// two characters.
pub proof fn lemma_endpoint_chars(s: Scalar, g: Seq<char>)
    requires
        s.wf(),
        g.len() >= 2,
    ensures
        s.num == 0 ==> gradient_index(s.num as int, s.den as int, g.len() as int) == 0,
        s.num == s.den ==> gradient_index(s.num as int, s.den as int, g.len() as int) == g.len()
            - 1,
{
    lemma_gradient_index_endpoints(s.num as int, s.den as int, g.len() as int);
}

/// A fully transparent pixel yields the first gradient character under
/// Intensity mode, whatever its color: weighting by alpha zero forces the
/// scalar to zero.
pub proof fn lemma_transparent_yields_first_char(p: Pixel, g: Seq<char>)
    requires
        p.a == 0,
        g.len() >= 2,
    ensures
        pixel_char(ColorMode::Intensity, p, g) == g[0],
{
    let s = weighted_scalar(ColorMode::Intensity, p);
    assert(s.0 == (p.r + p.g + p.b) * (p.a as int));
    assert(s.0 == 0) by (nonlinear_arith)
        requires
            s.0 == (p.r + p.g + p.b) * (p.a as int),
            p.a == 0,
    ;
    lemma_gradient_index_endpoints(s.0, s.1, g.len() as int);
}

/// Alpha mode ignores the color channels entirely: two pixels with the same
/// alpha produce the same character, whatever their colors.
pub proof fn lemma_alpha_mode_ignores_rgb(p1: Pixel, p2: Pixel, g: Seq<char>)
    requires
        p1.a == p2.a,
        g.len() >= 2,
    ensures
        pixel_char(ColorMode::AlphaChannel, p1, g) == pixel_char(ColorMode::AlphaChannel, p2, g),
{
}

} // verus!
