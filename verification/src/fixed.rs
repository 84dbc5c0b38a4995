//! A decimal fixed-point scalar.

use crate::scalar::Scalar;
use vstd::arithmetic::div_mod::lemma_div_is_ordered;
use vstd::prelude::*;

verus! {

/// The number of raw units in one: six decimal places.
pub const SCALE: i64 = 1_000_000;

/// A decimal fixed-point number with six places after the point.
///
/// The value is `raw / 1_000_000`. Results that leave the range of `i64` are
/// held at its ends, quotients and roots are cut towards zero, a division by
/// zero gives the end of the range on the dividend's side (zero for zero by
/// zero), and the root of a negative number is zero.
#[derive(Clone, Copy, PartialEq, Eq, Debug)]
pub struct Fixed {
    pub raw: i64,
}

/// `x` held to the range of `i64`.
pub open spec fn saturated(x: int) -> i64 {
    if x > i64::MAX {
        i64::MAX
    } else if x < i64::MIN {
        i64::MIN
    } else {
        x as i64
    }
}

/// The quotient of `a` by `b`, cut towards zero.
pub open spec fn quotient_toward_zero(a: int, b: int) -> int
    recommends
        b != 0,
{
    if a >= 0 && b > 0 {
        a / b
    } else if a >= 0 {
        -(a / (-b))
    } else if b > 0 {
        -((-a) / b)
    } else {
        (-a) / (-b)
    }
}

/// `r` is the integer part of the square root of `n`.
pub open spec fn is_floor_sqrt(n: int, r: int) -> bool {
    0 <= r && r * r <= n < (r + 1) * (r + 1)
}

/// The integer part of the square root of `n`, for `n` from zero up.
pub open spec fn floor_sqrt(n: int) -> int {
    choose|r: int| is_floor_sqrt(n, r)
}

/// `x` as an `i64`, held to its range.
fn saturate(x: i128) -> (r: i64)
    ensures
        r == saturated(x as int),
{
    if x > i64::MAX as i128 {
        i64::MAX
    } else if x < i64::MIN as i128 {
        i64::MIN
    } else {
        x as i64
    }
}

/// The quotient of `a` by `b`, cut towards zero.
fn divide_toward_zero(a: i128, b: i128) -> (r: i128)
    requires
        b != 0,
        i128::MIN < a,
        i128::MIN < b,
    ensures
        r == quotient_toward_zero(a as int, b as int),
{
    if a >= 0 && b > 0 {
        a / b
    } else if a >= 0 {
        let q = a / (-b);
        -q
    } else if b > 0 {
        let q = (-a) / b;
        -q
    } else {
        (-a) / (-b)
    }
}

/// Any two integer parts of the square root of `n` agree.
pub proof fn lemma_floor_sqrt_unique(n: int, r1: int, r2: int)
    requires
        is_floor_sqrt(n, r1),
        is_floor_sqrt(n, r2),
    ensures
        r1 == r2,
{
    if r1 < r2 {
        assert((r1 + 1) * (r1 + 1) <= r2 * r2) by (nonlinear_arith)
            requires
                0 <= r1,
                r1 + 1 <= r2,
        ;
    } else if r2 < r1 {
        assert((r2 + 1) * (r2 + 1) <= r1 * r1) by (nonlinear_arith)
            requires
                0 <= r2,
                r2 + 1 <= r1,
        ;
    }
}

/// The integer part of the square root of `n`.
fn integer_sqrt(n: u128) -> (r: u128)
    requires
        n < 0x1_0000_0000_0000_0000_0000_0000,
    ensures
        is_floor_sqrt(n as int, r as int),
        r == floor_sqrt(n as int),
        r < 0x1_0000_0000_0000,
{
    let mut low: u128 = 0;
    let mut high: u128 = 0x1_0000_0000_0000;
    assert(n < high * high) by (nonlinear_arith)
        requires
            n < 0x1_0000_0000_0000_0000_0000_0000,
            high == 0x1_0000_0000_0000,
    ;
    while high - low > 1
        invariant
            low < high <= 0x1_0000_0000_0000,
            low * low <= n < high * high,
        decreases high - low,
    {
        let mid: u128 = low + (high - low) / 2;
        assert(mid * mid < 0x1_0000_0000_0000_0000_0000_0000) by (nonlinear_arith)
            requires
                mid < 0x1_0000_0000_0000,
        ;
        if mid * mid <= n {
            low = mid;
        } else {
            high = mid;
        }
    }
    proof {
        assert(high == low + 1);
        assert(is_floor_sqrt(n as int, low as int));
        lemma_floor_sqrt_unique(n as int, low as int, floor_sqrt(n as int));
    }
    low
}

impl Fixed {
    /// The number with the given raw units.
    pub fn from_raw(raw: i64) -> (r: Self)
        ensures
            r.raw == raw,
    {
        Fixed { raw }
    }

    /// The raw units of the number.
    pub fn raw(self) -> (r: i64)
        ensures
            r == self.raw,
    {
        self.raw
    }
}

impl Scalar for Fixed {
    open spec fn from_int_spec(i: i64) -> Self {
        Fixed { raw: saturated(i * SCALE) }
    }

    open spec fn add_spec(self, rhs: Self) -> Self {
        Fixed { raw: saturated(self.raw + rhs.raw) }
    }

    open spec fn sub_spec(self, rhs: Self) -> Self {
        Fixed { raw: saturated(self.raw - rhs.raw) }
    }

    open spec fn mul_spec(self, rhs: Self) -> Self {
        Fixed { raw: saturated(quotient_toward_zero(self.raw * rhs.raw, SCALE as int)) }
    }

    open spec fn div_spec(self, rhs: Self) -> Self {
        if rhs.raw == 0 {
            if self.raw > 0 {
                Fixed { raw: i64::MAX }
            } else if self.raw < 0 {
                Fixed { raw: i64::MIN }
            } else {
                Fixed { raw: 0 }
            }
        } else {
            Fixed { raw: saturated(quotient_toward_zero(self.raw * SCALE, rhs.raw as int)) }
        }
    }

    open spec fn neg_spec(self) -> Self {
        Fixed { raw: saturated(-self.raw) }
    }

    open spec fn abs_spec(self) -> Self {
        if self.raw < 0 {
            Fixed { raw: saturated(-self.raw) }
        } else {
            self
        }
    }

    open spec fn sqrt_spec(self) -> Self {
        if self.raw <= 0 {
            Fixed { raw: 0 }
        } else {
            Fixed { raw: floor_sqrt(self.raw * SCALE) as i64 }
        }
    }

    open spec fn lt_spec(self, rhs: Self) -> bool {
        self.raw < rhs.raw
    }

    open spec fn le_spec(self, rhs: Self) -> bool {
        self.raw <= rhs.raw
    }

    open spec fn to_byte_spec(self) -> u8 {
        if self.raw < 0 {
            0
        } else if self.raw / SCALE > 255 {
            255
        } else {
            (self.raw / SCALE) as u8
        }
    }

    fn from_int(i: i64) -> (r: Self) {
        assert(-0x4000_0000_0000_0000_0000_0000 < i * SCALE < 0x4000_0000_0000_0000_0000_0000)
            by (nonlinear_arith)
            requires
                i64::MIN <= i <= i64::MAX,
                SCALE == 1_000_000,
        ;
        Fixed { raw: saturate(i as i128 * SCALE as i128) }
    }

    fn add(self, rhs: Self) -> (r: Self) {
        Fixed { raw: saturate(self.raw as i128 + rhs.raw as i128) }
    }

    fn sub(self, rhs: Self) -> (r: Self) {
        Fixed { raw: saturate(self.raw as i128 - rhs.raw as i128) }
    }

    fn mul(self, rhs: Self) -> (r: Self) {
        assert(-0x4000_0000_0000_0000_0000_0000_0000_0000 <= self.raw * rhs.raw
            <= 0x4000_0000_0000_0000_0000_0000_0000_0000) by (nonlinear_arith)
            requires
                i64::MIN <= self.raw <= i64::MAX,
                i64::MIN <= rhs.raw <= i64::MAX,
        ;
        let product: i128 = self.raw as i128 * rhs.raw as i128;
        Fixed { raw: saturate(divide_toward_zero(product, SCALE as i128)) }
    }

    fn div(self, rhs: Self) -> (r: Self) {
        if rhs.raw == 0 {
            if self.raw > 0 {
                Fixed { raw: i64::MAX }
            } else if self.raw < 0 {
                Fixed { raw: i64::MIN }
            } else {
                Fixed { raw: 0 }
            }
        } else {
            assert(-0x4000_0000_0000_0000_0000_0000 < self.raw * SCALE
                < 0x4000_0000_0000_0000_0000_0000) by (nonlinear_arith)
                requires
                    i64::MIN <= self.raw <= i64::MAX,
                    SCALE == 1_000_000,
            ;
            let scaled: i128 = self.raw as i128 * SCALE as i128;
            Fixed { raw: saturate(divide_toward_zero(scaled, rhs.raw as i128)) }
        }
    }

    fn neg(self) -> (r: Self) {
        Fixed { raw: saturate(-(self.raw as i128)) }
    }

    fn abs(self) -> (r: Self) {
        if self.raw < 0 {
            Fixed { raw: saturate(-(self.raw as i128)) }
        } else {
            self
        }
    }

    fn sqrt(self) -> (r: Self) {
        if self.raw <= 0 {
            Fixed { raw: 0 }
        } else {
            assert(0 < self.raw * SCALE < 0x1_0000_0000_0000_0000_0000_0000) by (nonlinear_arith)
                requires
                    0 < self.raw <= i64::MAX,
                    SCALE == 1_000_000,
            ;
            let scaled: u128 = self.raw as u128 * SCALE as u128;
            let root = integer_sqrt(scaled);
            Fixed { raw: root as i64 }
        }
    }

    fn lt(self, rhs: Self) -> (r: bool) {
        self.raw < rhs.raw
    }

    fn le(self, rhs: Self) -> (r: bool) {
        self.raw <= rhs.raw
    }

    fn to_byte(self) -> (r: u8) {
        if self.raw < 0 {
            0
        } else if self.raw / SCALE > 255 {
            255
        } else {
            (self.raw / SCALE) as u8
        }
    }

    proof fn law_lt_irreflexive(a: Self) {
    }

    proof fn law_lt_transitive(a: Self, b: Self, c: Self) {
    }

    proof fn law_lt_implies_le(a: Self, b: Self) {
    }

    proof fn law_lt_excludes_ge(a: Self, b: Self) {
    }

    proof fn law_lt_le_transitive(a: Self, b: Self, c: Self) {
    }

    proof fn law_le_transitive(a: Self, b: Self, c: Self) {
    }

    proof fn law_from_int_monotone(i: i64, j: i64) {
        assert(i * SCALE <= j * SCALE) by (nonlinear_arith)
            requires
                i <= j,
                SCALE == 1_000_000,
        ;
    }
}

/// Zero times anything is zero, and adding zero changes nothing.
pub proof fn lemma_zero_is_neutral(x: Fixed)
    ensures
        x.mul_spec(Fixed::from_int_spec(0)) == Fixed::from_int_spec(0),
        x.add_spec(Fixed::from_int_spec(0)) == x,
{
    let zero = Fixed::from_int_spec(0);
    assert(zero.raw == 0);
    assert(x.raw * 0 == 0) by (nonlinear_arith);
    assert(0int / (SCALE as int) == 0);
}

/// Every number from zero up has an integer square root.
pub proof fn lemma_floor_sqrt_exists(n: int)
    requires
        0 <= n,
    ensures
        is_floor_sqrt(n, floor_sqrt(n)),
    decreases n,
{
    if n == 0 {
        assert(is_floor_sqrt(0, 0));
    } else {
        lemma_floor_sqrt_exists(n - 1);
        let r = floor_sqrt(n - 1);
        if (r + 1) * (r + 1) <= n {
            assert((r + 1) * (r + 1) == n);
            assert(n < (r + 2) * (r + 2)) by (nonlinear_arith)
                requires
                    0 <= r,
                    (r + 1) * (r + 1) == n,
            ;
            assert(is_floor_sqrt(n, r + 1));
        } else {
            assert(is_floor_sqrt(n, r));
        }
    }
}

/// Cutting a quotient towards zero keeps the order of the dividends, for a
/// positive divisor.
pub proof fn lemma_quotient_is_ordered(x: int, y: int, d: int)
    requires
        x <= y,
        0 < d,
    ensures
        quotient_toward_zero(x, d) <= quotient_toward_zero(y, d),
{
    if 0 <= x {
        lemma_div_is_ordered(x, y, d);
    } else if 0 <= y {
        lemma_div_is_ordered(0, -x, d);
        lemma_div_is_ordered(0, y, d);
    } else {
        lemma_div_is_ordered(-y, -x, d);
    }
}

/// Division by a divisor that is not negative keeps the order of the
/// dividends.
pub proof fn lemma_div_is_monotone(x: Fixed, y: Fixed, d: Fixed)
    requires
        x.raw <= y.raw,
        0 <= d.raw,
    ensures
        x.div_spec(d).raw <= y.div_spec(d).raw,
{
    if d.raw > 0 {
        assert(x.raw * SCALE <= y.raw * SCALE) by (nonlinear_arith)
            requires
                x.raw <= y.raw,
                SCALE == 1_000_000,
        ;
        lemma_quotient_is_ordered(x.raw * SCALE, y.raw * SCALE, d.raw as int);
    }
}

/// A product of a number with itself is not negative.
pub proof fn lemma_square_is_not_negative(x: Fixed)
    ensures
        0 <= x.mul_spec(x).raw,
{
    assert(0 <= x.raw * x.raw) by (nonlinear_arith);
    lemma_div_is_ordered(0, x.raw * x.raw, SCALE as int);
}

/// A root is not negative.
pub proof fn lemma_sqrt_is_not_negative(x: Fixed)
    ensures
        0 <= x.sqrt_spec().raw,
{
    if x.raw > 0 {
        assert(0 < x.raw * SCALE < 0x1_0000_0000_0000_0000_0000_0000) by (nonlinear_arith)
            requires
                0 < x.raw <= i64::MAX,
                SCALE == 1_000_000,
        ;
        lemma_floor_sqrt_exists(x.raw * SCALE);
        let r = floor_sqrt(x.raw * SCALE);
        if r >= 0x1_0000_0000_0000 {
            assert(r * r >= 0x1_0000_0000_0000_0000_0000_0000) by (nonlinear_arith)
                requires
                    r >= 0x1_0000_0000_0000,
            ;
        }
    }
}

} // verus!
