//! Fixed-point numbers: the engine's stand-in for real values.

use vstd::prelude::*;

verus! {

/// How many raw units make up the value one.
pub const SCALE: i64 = 1_000_000;

/// A real number held as a count of millionths.
///
/// The value of `Fixed { raw }` is `raw / SCALE`. Arithmetic saturates at
/// the ends of the representable range instead of wrapping.
#[derive(Clone, Copy, Debug, PartialEq, Eq, Structural)]
pub struct Fixed {
    pub raw: i64,
}

/// The integer nearest to `v` inside the range of `i64`.
pub open spec fn clamp(v: int) -> int {
    if v < i64::MIN {
        i64::MIN as int
    } else if v > i64::MAX {
        i64::MAX as int
    } else {
        v
    }
}

/// `v * num / den`, rounded toward zero.
pub open spec fn scaled(v: int, num: int, den: int) -> int
    recommends
        num >= 0,
        den > 0,
{
    if v >= 0 {
        (v * num) / den
    } else {
        -(((-v) * num) / den)
    }
}

/// The sum of two values, saturating at the ends of the range.
pub open spec fn sum(a: Fixed, b: Fixed) -> Fixed {
    Fixed { raw: clamp(a.raw + b.raw) as i64 }
}

/// The difference of two values, saturating at the ends of the range.
pub open spec fn difference(a: Fixed, b: Fixed) -> Fixed {
    Fixed { raw: clamp(a.raw - b.raw) as i64 }
}

/// The value times 1.01, rounded toward zero and saturating.
pub open spec fn grown(a: Fixed) -> Fixed {
    Fixed { raw: clamp(scaled(a.raw as int, 101, 100)) as i64 }
}

/// The value divided by 1.01, rounded toward zero.
pub open spec fn shrunk(a: Fixed) -> Fixed {
    Fixed { raw: clamp(scaled(a.raw as int, 100, 101)) as i64 }
}

impl Fixed {
    /// The value zero.
    pub fn zero() -> (r: Fixed)
        ensures
            r.raw == 0,
    {
        Fixed { raw: 0 }
    }

    /// The whole number `n`.
    pub fn from_whole(n: i32) -> (r: Fixed)
        ensures
            r.raw == n * SCALE,
    {
        let wide: i64 = n as i64;
        Fixed { raw: wide * SCALE }
    }

    /// `n` hundredths.
    pub fn from_hundredths(n: i32) -> (r: Fixed)
        ensures
            r.raw == n * (SCALE / 100),
    {
        let wide: i64 = n as i64;
        Fixed { raw: wide * (SCALE / 100) }
    }

    /// The sum of two values, saturating at the range's ends.
    pub fn plus(self, other: Fixed) -> (r: Fixed)
        ensures
            r == sum(self, other),
    {
        let wide: i128 = self.raw as i128 + other.raw as i128;
        Fixed { raw: narrow(wide) }
    }

    /// The difference of two values, saturating at the range's ends.
    pub fn minus(self, other: Fixed) -> (r: Fixed)
        ensures
            r == difference(self, other),
    {
        let wide: i128 = self.raw as i128 - other.raw as i128;
        Fixed { raw: narrow(wide) }
    }

    /// The value times 1.01, rounded toward zero and saturating.
    pub fn grow(self) -> (r: Fixed)
        ensures
            r == grown(self),
    {
        Fixed { raw: narrow(times_over(self.raw, 101, 100)) }
    }

    /// The value divided by 1.01, rounded toward zero.
    pub fn shrink(self) -> (r: Fixed)
        ensures
            r == shrunk(self),
    {
        Fixed { raw: narrow(times_over(self.raw, 100, 101)) }
    }
}

/// Dividing by 1.01 never leaves the range and never moves a value away
/// from zero.
pub proof fn lemma_shrunk_no_larger(a: Fixed)
    ensures
        shrunk(a).raw == scaled(a.raw as int, 100, 101),
        a.raw >= 0 ==> 0 <= shrunk(a).raw <= a.raw,
        a.raw <= 0 ==> a.raw <= shrunk(a).raw <= 0,
{
    let v = a.raw as int;
    let q = scaled(v, 100, 101);
    assert(v >= 0 ==> 0 <= q <= v) by (nonlinear_arith)
        requires
            q == scaled(v, 100, 101),
    ;
    assert(v <= 0 ==> v <= q <= 0) by (nonlinear_arith)
        requires
            q == scaled(v, 100, 101),
    ;
}

/// Multiplying by 1.01 never moves a value toward zero.
pub proof fn lemma_grown_no_smaller(a: Fixed)
    ensures
        a.raw >= 0 ==> grown(a).raw >= a.raw,
        a.raw <= 0 ==> grown(a).raw <= a.raw,
{
    let v = a.raw as int;
    let q = scaled(v, 101, 100);
    assert(v >= 0 ==> q >= v) by (nonlinear_arith)
        requires
            q == scaled(v, 101, 100),
    ;
    assert(v <= 0 ==> q <= v) by (nonlinear_arith)
        requires
            q == scaled(v, 101, 100),
    ;
}

/// `v * num / den` rounded toward zero, computed without overflow.
fn times_over(v: i64, num: u8, den: u8) -> (r: i128)
    requires
        den > 0,
    ensures
        r == scaled(v as int, num as int, den as int),
{
    let negative: bool = v < 0;
    let magnitude: u128 = if negative {
        (-(v as i128)) as u128
    } else {
        v as u128
    };
    assert(magnitude * (num as u128) <= 0x8000_0000_0000_0000 * 255) by (nonlinear_arith)
        requires
            magnitude <= 0x8000_0000_0000_0000,
            num <= 255,
    ;
    let product: u128 = magnitude * (num as u128);
    let quotient: u128 = product / (den as u128);
    assert(quotient <= product) by (nonlinear_arith)
        requires
            quotient == product / (den as u128),
            den > 0,
    ;
    if negative {
        -(quotient as i128)
    } else {
        quotient as i128
    }
}

/// Brings a wide integer into the range of `i64`.
fn narrow(v: i128) -> (r: i64)
    ensures
        r == clamp(v as int),
{
    if v < i64::MIN as i128 {
        i64::MIN
    } else if v > i64::MAX as i128 {
        i64::MAX
    } else {
        v as i64
    }
}

} // verus!
