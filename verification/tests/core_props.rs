use asciify::color::{
    hue, intensity, luminance, mode_scalar, saturation, value, weighted, ColorMode,
};
use asciify::gradient::Gradient;
use asciify::pixel::Pixel;
use asciify::scalar::Scalar;
use asciify::DEFAULT_GRADIENT;

fn px(r: u8, g: u8, b: u8, a: u8) -> Pixel {
    Pixel { r, g, b, a }
}

fn grad(s: &str) -> Gradient {
    Gradient::new(s.chars().collect()).unwrap()
}

#[test]
fn intensity_is_mean_of_color_channels() {
    let s = intensity(px(100, 150, 200, 255));
    assert_eq!((s.num, s.den), (450, 765));
    let s = intensity(px(255, 255, 255, 0));
    assert_eq!((s.num, s.den), (765, 765));
    let s = intensity(px(0, 0, 0, 255));
    assert_eq!((s.num, s.den), (0, 765));
}

#[test]
fn value_is_largest_color_channel() {
    let s = value(px(10, 250, 30, 0));
    assert_eq!((s.num, s.den), (250, 255));
    let s = value(px(0, 0, 0, 255));
    assert_eq!((s.num, s.den), (0, 255));
}

#[test]
fn saturation_is_chroma_over_max() {
    let s = saturation(px(200, 50, 100, 255));
    assert_eq!((s.num, s.den), (150, 200));
}

#[test]
fn saturation_zero_on_gray_and_black() {
    // Equal channels give zero saturation, pure black included.
    let s = saturation(px(0, 0, 0, 255));
    assert_eq!(s.num, 0);
    let s = saturation(px(128, 128, 128, 7));
    assert_eq!(s.num, 0);
    let s = saturation(px(255, 255, 255, 0));
    assert_eq!(s.num, 0);
}

#[test]
fn hue_zero_on_equal_channels() {
    assert_eq!(hue(px(0, 0, 0, 255)).num, 0);
    assert_eq!(hue(px(77, 77, 77, 0)).num, 0);
    assert_eq!(hue(px(255, 255, 255, 9)).num, 0);
}

#[test]
fn hue_sector_formulas() {
    // Red dominant, green above blue: 60 * (g - b) / (max - min), over 360.
    let s = hue(px(200, 100, 50, 255));
    assert_eq!((s.num, s.den), (50, 6 * 150));
    // Red dominant, blue above green: the value goes negative, unwrapped.
    let s = hue(px(200, 50, 100, 255));
    assert_eq!((s.num, s.den), (-50, 6 * 150));
    // Green dominant: 60 * ((b - r) / (max - min) + 2), over 360.
    let s = hue(px(50, 200, 100, 255));
    assert_eq!((s.num, s.den), (50 + 2 * 150, 6 * 150));
    // Blue dominant: 60 * ((r - g) / (max - min) + 4), over 360.
    let s = hue(px(100, 50, 200, 255));
    assert_eq!((s.num, s.den), (50 + 4 * 150, 6 * 150));
}

#[test]
fn luminance_is_mean_of_extremes() {
    let s = luminance(px(200, 50, 100, 255));
    assert_eq!((s.num, s.den), (250, 510));
}

#[test]
fn channel_modes_return_their_channel() {
    let p = px(10, 20, 30, 40);
    assert_eq!(mode_scalar(ColorMode::RedChannel, p).num, 10);
    assert_eq!(mode_scalar(ColorMode::GreenChannel, p).num, 20);
    assert_eq!(mode_scalar(ColorMode::BlueChannel, p).num, 30);
    assert_eq!(mode_scalar(ColorMode::AlphaChannel, p).num, 40);
}

#[test]
fn weighting_multiplies_by_alpha_except_alpha_mode() {
    let p = px(255, 0, 0, 51);
    let s = weighted(ColorMode::RedChannel, p);
    assert_eq!((s.num, s.den), (255 * 51, 255 * 255));
    // Alpha mode uses alpha as the scalar itself, never weighted twice.
    let s = weighted(ColorMode::AlphaChannel, p);
    assert_eq!((s.num, s.den), (51, 255));
    // Alpha zero forces every other mode to zero.
    let s = weighted(ColorMode::Intensity, px(250, 250, 250, 0));
    assert_eq!(s.num, 0);
}

#[test]
fn gradient_rejects_fewer_than_two_chars() {
    assert!(Gradient::new(Vec::new()).is_none());
    assert!(Gradient::new(vec!['a']).is_none());
    assert!(Gradient::new(vec!['a', 'b']).is_some());
}

#[test]
fn gradient_endpoints_select_first_and_last() {
    let g = grad("ab");
    assert_eq!(g.to_ascii(Scalar { num: 0, den: 1 }), 'a');
    assert_eq!(g.to_ascii(Scalar { num: 1, den: 1 }), 'b');
    let g = grad("wxyz");
    assert_eq!(g.to_ascii(Scalar { num: 0, den: 255 }), 'w');
    assert_eq!(g.to_ascii(Scalar { num: 255, den: 255 }), 'z');
}

#[test]
fn gradient_midpoint_rounds_half_up() {
    // round(0.5 * 1) selects index 1: halves round up, away from zero.
    let g = grad("ab");
    assert_eq!(g.to_ascii(Scalar { num: 1, den: 2 }), 'b');
}

#[test]
fn gradient_clamps_negative_scalars_to_first() {
    let g = grad("ab");
    assert_eq!(g.to_ascii(Scalar { num: -1, den: 6 }), 'a');
    assert_eq!(g.to_ascii(Scalar { num: -6, den: 6 }), 'a');
}

#[test]
fn gradient_index_monotone_in_scalar() {
    let g = grad("0123456789");
    let mut last = '0';
    for num in 0..=100i64 {
        let c = g.to_ascii(Scalar { num, den: 100 });
        assert!(c >= last);
        last = c;
    }
    assert_eq!(last, '9');
}

#[test]
fn gradient_selects_proportional_index() {
    let g = grad("abcde");
    // round(0.25 * 4) == 1, round(0.5 * 4) == 2, round(0.75 * 4) == 3.
    assert_eq!(g.to_ascii(Scalar { num: 1, den: 4 }), 'b');
    assert_eq!(g.to_ascii(Scalar { num: 2, den: 4 }), 'c');
    assert_eq!(g.to_ascii(Scalar { num: 3, den: 4 }), 'd');
}

#[test]
fn default_gradient_is_dark_to_bright() {
    let chars: Vec<char> = DEFAULT_GRADIENT.chars().collect();
    assert!(chars.len() >= 2);
    assert_eq!(chars[0], ' ');
    assert_eq!(*chars.last().unwrap(), '$');
    assert!(Gradient::new(chars).is_some());
}

#[test]
fn gradient_char_access() {
    let g = grad("xyz");
    assert_eq!(g.len(), 3);
    assert_eq!(g.char_at(0), 'x');
    assert_eq!(g.char_at(2), 'z');
}
