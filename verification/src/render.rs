use crate::color::{weighted, ColorMode};
use crate::gradient::{pixel_char, Gradient};
use crate::pixel::{pix, Pixel};
use vstd::prelude::*;

verus! {

#[verifier::external_type_specification]
#[verifier::external_body]
pub struct ExDynamicImage(image::DynamicImage);

/// Width and height of a decoded image, in pixels.
pub uninterp spec fn image_dims(img: image::DynamicImage) -> (u32, u32);

/// The 8-bit (red, green, blue, alpha) channels of each pixel of a decoded
/// image, keyed by (column, row), both 0-indexed from the top left.
pub uninterp spec fn image_pixels(img: image::DynamicImage) -> Map<(int, int), (u8, u8, u8, u8)>;

/// Relies on image::GenericImageView::dimensions for DynamicImage: returns
/// the image's (width, height).
#[verifier::external_body]
fn dimensions_of(img: &image::DynamicImage) -> (r: (u32, u32))
    ensures
        r == image_dims(*img),
{
    image::GenericImageView::dimensions(img)
}

/// Relies on image::GenericImageView::get_pixel for DynamicImage: returns
/// the RGBA channels at column x, row y.  It panics out of bounds, hence the
/// bounds required here.
#[verifier::external_body]
fn pixel_at(img: &image::DynamicImage, x: u32, y: u32) -> (r: (u8, u8, u8, u8))
    requires
        x < image_dims(*img).0,
        y < image_dims(*img).1,
    ensures
        r == image_pixels(*img)[(x as int, y as int)],
{
    let p = image::GenericImageView::get_pixel(img, x, y).0;
    (p[0], p[1], p[2], p[3])
}

/// Relies on String::push: appends the one character to the string.
#[verifier::external_body]
fn push_char(out: &mut String, c: char)
    ensures
        final(out)@ == old(out)@.push(c),
{
    out.push(c);
}

/// Characters of text row y: one per image column, each the gradient
/// character its pixel's alpha-weighted scalar selects.
pub open spec fn row_chars(
    m: Map<(int, int), (u8, u8, u8, u8)>,
    w: int,
    y: int,
    mode: ColorMode,
    g: Seq<char>,
) -> Seq<char> {
    Seq::new(w as nat, |x: int| pixel_char(mode, pix(m[(x, y)]), g))
}

/// The first h text rows, each w characters, joined by single newlines and
/// with no trailing newline.
pub open spec fn rows_text(
    m: Map<(int, int), (u8, u8, u8, u8)>,
    w: int,
    h: int,
    mode: ColorMode,
    g: Seq<char>,
) -> Seq<char>
    decreases h,
{
    if h <= 0 {
        Seq::empty()
    } else if h == 1 {
        row_chars(m, w, 0, mode, g)
    } else {
        rows_text(m, w, h - 1, mode, g).push('\n') + row_chars(m, w, h - 1, mode, g)
    }
}

/// The rendered text of a w-column, h-row image has exactly h rows of w
/// characters each, separated by h - 1 newlines.
pub proof fn lemma_rows_text_len(
    m: Map<(int, int), (u8, u8, u8, u8)>,
    w: int,
    h: int,
    mode: ColorMode,
    g: Seq<char>,
)
    requires
        0 <= w,
        1 <= h,
    ensures
        rows_text(m, w, h, mode, g).len() == h * w + h - 1,
    decreases h,
{
    if h == 1 {
        assert(rows_text(m, w, 1, mode, g).len() == w);
    } else {
        lemma_rows_text_len(m, w, h - 1, mode, g);
        assert(rows_text(m, w, h, mode, g).len() == ((h - 1) * w + h - 2) + 1 + w);
        assert(h * w == (h - 1) * w + w) by (nonlinear_arith);
    }
}

/// Renders a decoded image as text: one text row per image row, one
/// character per image column, rows joined by single newlines.  Every pixel
/// is reduced to its alpha-weighted mode scalar and mapped through the
/// gradient; the traversal order is irrelevant since each pixel owns one
/// output slot.
#[verifier::loop_isolation(false)]
pub fn render(img: &image::DynamicImage, mode: ColorMode, gradient: &Gradient) -> (out: String)
    requires
        gradient.wf(),
    ensures
        out@ == rows_text(
            image_pixels(*img),
            image_dims(*img).0 as int,
            image_dims(*img).1 as int,
            mode,
            gradient@,
        ),
{
    let (w, h) = dimensions_of(img);
    let ghost m = image_pixels(*img);
    let mut out = String::new();
    let mut y: u32 = 0;
    while y < h
        invariant
            y <= h,
            out@ == rows_text(m, w as int, y as int, mode, gradient@),
        decreases h - y,
    {
        if y > 0 {
            push_char(&mut out, '\n');
        }
        let ghost base = out@;
        let ghost row = row_chars(m, w as int, y as int, mode, gradient@);
        let mut x: u32 = 0;
        while x < w
            invariant
                x <= w,
                out@ == base + row.take(x as int),
            decreases w - x,
        {
            let t = pixel_at(img, x, y);
            let p = Pixel { r: t.0, g: t.1, b: t.2, a: t.3 };
            let s = weighted(mode, p);
            let c = gradient.to_ascii(s);
            proof {
                assert(c == row[x as int]);
                assert(row.take(x as int + 1) =~= row.take(x as int).push(c));
            }
            push_char(&mut out, c);
            x = x + 1;
        }
        proof {
            assert(out@ =~= base + row);
            assert(out@ =~= rows_text(m, w as int, y as int + 1, mode, gradient@));
        }
        y = y + 1;
    }
    out
}

} // verus!
