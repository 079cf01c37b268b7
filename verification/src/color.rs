use crate::pixel::Pixel;
use crate::scalar::Scalar;
use vstd::prelude::*;

verus! {

/// The quantity extracted from each pixel: one of the four channels directly,
/// or a derived perceptual value.  Selected once and applied uniformly.
#[derive(Clone, Copy, PartialEq, Eq, Structural, Debug)]
pub enum ColorMode {
    /// Red channel (alpha weighting still applies).
    RedChannel,
    /// Green channel (alpha weighting still applies).
    GreenChannel,
    /// Blue channel (alpha weighting still applies).
    BlueChannel,
    /// Alpha channel, used as the scalar itself.
    AlphaChannel,
    /// Mean of the three color channels.
    Intensity,
    /// Largest color channel.
    Value,
    /// Chroma over the largest channel; zero for pure black.
    Saturation,
    /// Six-sector hue angle, normalized by 360 degrees.
    Hue,
    /// Mean of the largest and smallest color channels.
    Luminance,
}

/// Hue of a pixel as an exact rational (numerator, denominator).  The hue is
/// zero when the color channels are equal.  Otherwise the sector formula is
/// applied to the dominant channel and divided by 360 degrees; with
/// normalized channels the factors of 255 cancel, leaving small integers.
/// The red sector deliberately takes no modulo, so its value lies in
/// [-1/6, 1/6] and can be negative (blue above green); the gradient mapping
/// clamps such values to the first character.
pub open spec fn spec_hue(p: Pixel) -> (int, int) {
    let mx = p.spec_max_rgb();
    let mn = p.spec_min_rgb();
    if mx == mn {
        (0, 1)
    } else if mx == p.r {
        (p.g - p.b, 6 * (mx - mn))
    } else if mx == p.g {
        (p.b - p.r + 2 * (mx - mn), 6 * (mx - mn))
    } else {
        (p.r - p.g + 4 * (mx - mn), 6 * (mx - mn))
    }
}

/// Scalar a mode extracts from a pixel, before alpha weighting, as an exact
/// rational (numerator, denominator) over the 8-bit channels.
pub open spec fn raw_scalar(mode: ColorMode, p: Pixel) -> (int, int) {
    match mode {
        ColorMode::RedChannel => (p.r as int, 255),
        ColorMode::GreenChannel => (p.g as int, 255),
        ColorMode::BlueChannel => (p.b as int, 255),
        ColorMode::AlphaChannel => (p.a as int, 255),
        ColorMode::Intensity => (p.r + p.g + p.b, 765),
        ColorMode::Value => (p.spec_max_rgb(), 255),
        ColorMode::Saturation => if p.spec_max_rgb() == 0 {
            (0, 1)
        } else {
            (p.spec_max_rgb() - p.spec_min_rgb(), p.spec_max_rgb())
        },
        ColorMode::Hue => spec_hue(p),
        ColorMode::Luminance => (p.spec_max_rgb() + p.spec_min_rgb(), 510),
    }
}

/// Scalar actually mapped through the gradient: the raw scalar weighted by
/// normalized alpha, so transparent pixels trend toward the first character.
/// Alpha mode is the alpha value itself, never weighted twice.
pub open spec fn weighted_scalar(mode: ColorMode, p: Pixel) -> (int, int) {
    match mode {
        ColorMode::AlphaChannel => (p.a as int, 255),
        _ => (raw_scalar(mode, p).0 * p.a, raw_scalar(mode, p).1 * 255),
    }
}

/// Mean of the three color channels, in [0, 1].
pub fn intensity(p: Pixel) -> (s: Scalar)
    ensures
        s.wf(),
        (s.num as int, s.den as int) == raw_scalar(ColorMode::Intensity, p),
        0 <= s.num <= s.den,
{
    Scalar { num: p.r as i64 + p.g as i64 + p.b as i64, den: 765 }
}

/// Largest color channel, in [0, 1].
pub fn value(p: Pixel) -> (s: Scalar)
    ensures
        s.wf(),
        (s.num as int, s.den as int) == raw_scalar(ColorMode::Value, p),
        0 <= s.num <= s.den,
{
    Scalar { num: p.max_rgb() as i64, den: 255 }
}

/// Chroma over the largest channel, in [0, 1]; zero for pure black (guarding
/// the division) and zero whenever the three color channels are equal.
pub fn saturation(p: Pixel) -> (s: Scalar)
    ensures
        s.wf(),
        (s.num as int, s.den as int) == raw_scalar(ColorMode::Saturation, p),
        0 <= s.num <= s.den,
        p.r == p.g && p.g == p.b ==> s.num == 0,
{
    let mx = p.max_rgb();
    if mx == 0 {
        Scalar { num: 0, den: 1 }
    } else {
        Scalar { num: mx as i64 - p.min_rgb() as i64, den: mx as i64 }
    }
}

/// Six-sector hue divided by 360 degrees.  Zero whenever the three color
/// channels are equal; in [-1/6, 1/6] when red dominates, and otherwise in
/// [1/6, 5/6].
pub fn hue(p: Pixel) -> (s: Scalar)
    ensures
        s.wf(),
        (s.num as int, s.den as int) == raw_scalar(ColorMode::Hue, p),
        p.r == p.g && p.g == p.b ==> s.num == 0,
{
    let mx = p.max_rgb();
    let mn = p.min_rgb();
    if mx == mn {
        Scalar { num: 0, den: 1 }
    } else {
        let span: i64 = mx as i64 - mn as i64;
        if mx == p.r {
            Scalar { num: p.g as i64 - p.b as i64, den: 6 * span }
        } else if mx == p.g {
            Scalar { num: p.b as i64 - p.r as i64 + 2 * span, den: 6 * span }
        } else {
            Scalar { num: p.r as i64 - p.g as i64 + 4 * span, den: 6 * span }
        }
    }
}

/// Mean of the largest and smallest color channels, in [0, 1].
pub fn luminance(p: Pixel) -> (s: Scalar)
    ensures
        s.wf(),
        (s.num as int, s.den as int) == raw_scalar(ColorMode::Luminance, p),
        0 <= s.num <= s.den,
{
    Scalar { num: p.max_rgb() as i64 + p.min_rgb() as i64, den: 510 }
}

/// Scalar for the active mode, before alpha weighting.
pub fn mode_scalar(mode: ColorMode, p: Pixel) -> (s: Scalar)
    ensures
        s.wf(),
        (s.num as int, s.den as int) == raw_scalar(mode, p),
{
    match mode {
        ColorMode::RedChannel => Scalar { num: p.r as i64, den: 255 },
        ColorMode::GreenChannel => Scalar { num: p.g as i64, den: 255 },
        ColorMode::BlueChannel => Scalar { num: p.b as i64, den: 255 },
        ColorMode::AlphaChannel => Scalar { num: p.a as i64, den: 255 },
        ColorMode::Intensity => intensity(p),
        ColorMode::Value => value(p),
        ColorMode::Saturation => saturation(p),
        ColorMode::Hue => hue(p),
        ColorMode::Luminance => luminance(p),
    }
}

/// Every raw scalar has a small denominator and a value in [-1, 1].
pub proof fn lemma_raw_scalar_bounds(mode: ColorMode, p: Pixel)
    ensures
        1 <= raw_scalar(mode, p).1 <= 1530,
        -raw_scalar(mode, p).1 <= raw_scalar(mode, p).0 <= raw_scalar(mode, p).1,
{
}

/// Alpha-weighted scalar for the active mode: the raw scalar times the
/// normalized alpha channel, except alpha mode, which uses the alpha value
/// directly as the scalar.
pub fn weighted(mode: ColorMode, p: Pixel) -> (s: Scalar)
    ensures
        s.wf(),
        (s.num as int, s.den as int) == weighted_scalar(mode, p),
{
    match mode {
        ColorMode::AlphaChannel => Scalar { num: p.a as i64, den: 255 },
        _ => {
            let raw = mode_scalar(mode, p);
            let alpha: i64 = p.a as i64;
            proof {
                lemma_raw_scalar_bounds(mode, p);
                assert(-390150 <= raw.num as int * alpha as int <= 390150 && 255 <= raw.den
                    as int * 255 <= 390150 && -(raw.den as int * 255) <= raw.num as int
                    * alpha as int <= raw.den as int * 255) by (nonlinear_arith)
                    requires
                        1 <= raw.den as int <= 1530,
                        -(raw.den as int) <= raw.num as int <= raw.den as int,
                        0 <= alpha as int <= 255,
                ;
            }
            Scalar { num: raw.num * alpha, den: raw.den * 255 }
        },
    }
}

} // verus!
