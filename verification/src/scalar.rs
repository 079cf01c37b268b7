use vstd::arithmetic::div_mod::{
    lemma_basic_div, lemma_div_pos_is_pos, lemma_fundamental_div_mod,
    lemma_hoist_over_denominator, lemma_mod_division_less_than_divisor,
    lemma_multiply_divide_lt,
};
use vstd::prelude::*;

verus! {

/// Upper bound on the denominator of a well-formed scalar.  The color modes
/// never produce a denominator above 6 * 255 * 255, so this generous bound
/// holds everywhere while keeping the gradient-index arithmetic free of
/// overflow for any gradient length.
pub const DEN_BOUND: i64 = 0x4000_0000;

/// An exact rational scalar, `num / den`.  The color modes produce values
/// that are nominally in [0, 1]; only the hue mode can go below 0 (never
/// below -1), so well-formedness pins `-den <= num <= den`.
#[derive(Clone, Copy, PartialEq, Eq, Structural, Debug)]
pub struct Scalar {
    pub num: i64,
    pub den: i64,
}

impl Scalar {
    /// The denominator is positive and bounded, and the value lies in [-1, 1].
    pub open spec fn wf(self) -> bool {
        &&& 1 <= self.den <= DEN_BOUND
        &&& -self.den <= self.num <= self.den
    }
}

/// The rational `num1 / den1` is at most `num2 / den2`, stated by
/// cross-multiplication; both denominators must be positive.
pub open spec fn ratio_le(num1: int, den1: int, num2: int, den2: int) -> bool {
    num1 * den2 <= num2 * den1
}

/// A scalar's numerator clamped below at zero.  A negative scalar can only
/// arise from the hue mode; it selects the first gradient character, exactly
/// as rounding the negative product and converting it to an unsigned index
/// (which saturates at zero) would.
pub open spec fn clamped_num(num: int) -> int {
    if num < 0 {
        0
    } else {
        num
    }
}

/// Index selected by the scalar `num / den` over a gradient of `len`
/// characters: `round(scalar * (len - 1))`, with the scalar clamped below at
/// zero and halves rounding up.  Written as one floor division:
/// `round(n / d) == (2n + d) / 2d` for `n >= 0`, `d > 0`.
pub open spec fn gradient_index(num: int, den: int, len: int) -> int {
    (2 * clamped_num(num) * (len - 1) + den) / (2 * den)
}

/// The selected index is always in bounds whenever the scalar's value is at
/// most 1, for every gradient of at least two characters.
pub proof fn lemma_gradient_index_in_range(num: int, den: int, len: int)
    requires
        1 <= den,
        num <= den,
        2 <= len,
    ensures
        0 <= gradient_index(num, den, len) < len,
{
    let n = clamped_num(num);
    let top = 2 * n * (len - 1) + den;
    assert(0 <= n <= den);
    assert(0 <= 2 * n * (len - 1)) by (nonlinear_arith)
        requires
            0 <= n,
            2 <= len,
    ;
    lemma_div_pos_is_pos(top, 2 * den);
    assert(top < (2 * den) * len) by (nonlinear_arith)
        requires
            top == 2 * n * (len - 1) + den,
            0 <= n <= den,
            1 <= den,
            2 <= len,
    ;
    lemma_multiply_divide_lt(top, 2 * den, len);
}

/// The endpoints of the mapping: a scalar at most 0 selects the first
/// character, and a scalar exactly 1 selects the last.
pub proof fn lemma_gradient_index_endpoints(num: int, den: int, len: int)
    requires
        1 <= den,
        2 <= len,
    ensures
        num <= 0 ==> gradient_index(num, den, len) == 0,
        num == den ==> gradient_index(num, den, len) == len - 1,
{
    if num <= 0 {
        assert(clamped_num(num) == 0);
        assert(2 * clamped_num(num) * (len - 1) + den == den) by (nonlinear_arith)
            requires
                clamped_num(num) == 0,
        ;
        lemma_basic_div(den, 2 * den);
    }
    if num == den {
        assert(2 * clamped_num(num) * (len - 1) + den == den + (len - 1) * (2 * den))
            by (nonlinear_arith)
            requires
                num == den,
                1 <= den,
                2 <= len,
        ;
        lemma_hoist_over_denominator(den, len - 1, (2 * den) as nat);
        lemma_basic_div(den, 2 * den);
    }
}

/// Floor division preserves the order of two non-negative fractions, stated
/// by cross-multiplication.
proof fn lemma_div_cross_ordered(a1: int, b1: int, a2: int, b2: int)
    requires
        0 <= a1,
        0 <= a2,
        0 < b1,
        0 < b2,
        a1 * b2 <= a2 * b1,
    ensures
        a1 / b1 <= a2 / b2,
{
    let q1 = a1 / b1;
    let r1 = a1 % b1;
    let q2 = a2 / b2;
    let r2 = a2 % b2;
    lemma_fundamental_div_mod(a1, b1);
    lemma_fundamental_div_mod(a2, b2);
    lemma_mod_division_less_than_divisor(a1, b1);
    lemma_mod_division_less_than_divisor(a2, b2);
    assert(q1 <= q2) by (nonlinear_arith)
        requires
            a1 == b1 * q1 + r1,
            a2 == b2 * q2 + r2,
            0 <= r1 < b1,
            0 <= r2 < b2,
            0 < b1,
            0 < b2,
            0 <= a1,
            0 <= a2,
            a1 * b2 <= a2 * b1,
    ;
}

/// The gradient mapping is monotone: a scalar that is at most another, as a
/// rational, never selects a later character than the other does.
pub proof fn lemma_gradient_index_monotonic(s1: Scalar, s2: Scalar, len: int)
    requires
        s1.wf(),
        s2.wf(),
        2 <= len,
        ratio_le(s1.num as int, s1.den as int, s2.num as int, s2.den as int),
    ensures
        gradient_index(s1.num as int, s1.den as int, len) <= gradient_index(
            s2.num as int,
            s2.den as int,
            len,
        ),
{
    let n1 = clamped_num(s1.num as int);
    let d1 = s1.den as int;
    let n2 = clamped_num(s2.num as int);
    let d2 = s2.den as int;
    assert(n1 * d2 <= n2 * d1) by (nonlinear_arith)
        requires
            n1 == clamped_num(s1.num as int),
            n2 == clamped_num(s2.num as int),
            s1.num as int * d2 <= s2.num as int * d1,
            0 < d1,
            0 < d2,
    ;
    let a1 = 2 * n1 * (len - 1) + d1;
    let a2 = 2 * n2 * (len - 1) + d2;
    assert(0 <= a1 && 0 <= a2 && a1 * (2 * d2) <= a2 * (2 * d1)) by (nonlinear_arith)
        requires
            a1 == 2 * n1 * (len - 1) + d1,
            a2 == 2 * n2 * (len - 1) + d2,
            n1 * d2 <= n2 * d1,
            0 <= n1,
            0 <= n2,
            0 < d1,
            0 < d2,
            2 <= len,
    ;
    lemma_div_cross_ordered(a1, 2 * d1, a2, 2 * d2);
}

} // verus!
