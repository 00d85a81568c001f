use vstd::prelude::*;

verus! {

/// Units in one whole: a `Fixed` carries six decimal places.
pub const UNITS_PER_ONE: i64 = 1000000;

/// Clamps a mathematical integer into the range of `i64`.
pub open spec fn saturate(x: int) -> int {
    if x < i64::MIN {
        i64::MIN as int
    } else if x > i64::MAX {
        i64::MAX as int
    } else {
        x
    }
}

/// Division rounded toward zero, as machine integer division rounds.
pub open spec fn div_toward_zero(x: int, d: int) -> int {
    if d > 0 {
        if x >= 0 { x / d } else { -((-x) / d) }
    } else {
        if x >= 0 { -(x / (-d)) } else { (-x) / (-d) }
    }
}

/// The raw value of `a + b`.
pub open spec fn sum_raw(a: int, b: int) -> int {
    saturate(a + b)
}

/// The raw value of `a - b`.
pub open spec fn difference_raw(a: int, b: int) -> int {
    saturate(a - b)
}

/// The raw value of `a * b`: the exact product, rounded toward zero to a whole unit.
pub open spec fn product_raw(a: int, b: int) -> int {
    saturate(div_toward_zero(a * b, UNITS_PER_ONE as int))
}

/// The raw value of `a / b` for `b != 0`, rounded toward zero to a whole unit.
pub open spec fn quotient_raw(a: int, b: int) -> int {
    saturate(div_toward_zero(a * UNITS_PER_ONE, b))
}

/// The raw value of `|a|`.
pub open spec fn abs_raw(a: int) -> int {
    if a < 0 { saturate(-a) } else { a }
}

/// A signed decimal fixed-point number: `raw` counts millionths.
///
/// All arithmetic saturates: the ends of the `i64` range stand for the
/// infinities and absorb any result beyond them.
#[derive(Clone, Copy, Debug, PartialEq, Eq, Structural, Hash)]
pub struct Fixed {
    pub raw: i64,
}

fn saturate_wide(x: i128) -> (r: i64)
    ensures
        r == saturate(x as int),
{
    if x < i64::MIN as i128 {
        i64::MIN
    } else if x > i64::MAX as i128 {
        i64::MAX
    } else {
        x as i64
    }
}

fn divide_wide(x: i128, d: i128) -> (r: i128)
    requires
        d != 0,
        -0x4000_0000_0000_0000_0000_0000_0000_0000 <= x <= 0x4000_0000_0000_0000_0000_0000_0000_0000,
        -0x4000_0000_0000_0000_0000_0000_0000_0000 <= d <= 0x4000_0000_0000_0000_0000_0000_0000_0000,
    ensures
        r == div_toward_zero(x as int, d as int),
{
    let xm: u128 = if x >= 0 { x as u128 } else { (-x) as u128 };
    let dm: u128 = if d >= 0 { d as u128 } else { (-d) as u128 };
    let q: u128 = xm / dm;
    proof {
        assert(q <= xm) by (nonlinear_arith)
            requires q == xm / dm, dm > 0;
    }
    if (x >= 0) == (d > 0) {
        q as i128
    } else {
        -(q as i128)
    }
}

impl Fixed {
    /// Zero.
    pub fn zero() -> (r: Fixed)
        ensures
            r.raw == 0,
    {
        Fixed { raw: 0 }
    }

    /// The smallest positive value: one millionth.
    pub fn epsilon() -> (r: Fixed)
        ensures
            r.raw == 1,
    {
        Fixed { raw: 1 }
    }

    /// The largest value, which stands for positive infinity.
    pub fn infinity() -> (r: Fixed)
        ensures
            r.raw == i64::MAX,
    {
        Fixed { raw: i64::MAX }
    }

    /// The smallest value, which stands for negative infinity.
    pub fn neg_infinity() -> (r: Fixed)
        ensures
            r.raw == i64::MIN,
    {
        Fixed { raw: i64::MIN }
    }

    /// The whole number `v`.
    pub fn from_int(v: i32) -> (r: Fixed)
        ensures
            r.raw == v * UNITS_PER_ONE,
    {
        Fixed { raw: v as i64 * UNITS_PER_ONE }
    }

    /// The number `raw` millionths.
    pub fn from_raw(raw: i64) -> (r: Fixed)
        ensures
            r.raw == raw,
    {
        Fixed { raw }
    }

    /// The sum `self + o`.
    pub fn saturating_add(self, o: Fixed) -> (r: Fixed)
        ensures
            r.raw == sum_raw(self.raw as int, o.raw as int),
    {
        Fixed { raw: saturate_wide(self.raw as i128 + o.raw as i128) }
    }

    /// The difference `self - o`.
    pub fn saturating_sub(self, o: Fixed) -> (r: Fixed)
        ensures
            r.raw == difference_raw(self.raw as int, o.raw as int),
    {
        Fixed { raw: saturate_wide(self.raw as i128 - o.raw as i128) }
    }

    /// The product `self * o`, rounded toward zero to a whole unit.
    pub fn saturating_mul(self, o: Fixed) -> (r: Fixed)
        ensures
            r.raw == product_raw(self.raw as int, o.raw as int),
    {
        let a: i128 = self.raw as i128;
        let b: i128 = o.raw as i128;
        proof {
            assert(-0x4000_0000_0000_0000_0000_0000_0000_0000 <= a * b
                <= 0x4000_0000_0000_0000_0000_0000_0000_0000) by (nonlinear_arith)
                requires
                    -0x8000_0000_0000_0000 <= a <= 0x8000_0000_0000_0000,
                    -0x8000_0000_0000_0000 <= b <= 0x8000_0000_0000_0000,
            ;
        }
        Fixed { raw: saturate_wide(divide_wide(a * b, UNITS_PER_ONE as i128)) }
    }

    /// The quotient `self / o` for a nonzero divisor, rounded toward zero to a
    /// whole unit.
    pub fn saturating_div(self, o: Fixed) -> (r: Fixed)
        requires
            o.raw != 0,
        ensures
            r.raw == quotient_raw(self.raw as int, o.raw as int),
    {
        let a: i128 = self.raw as i128;
        proof {
            assert(-0x0800_0000_0000_0000_0000_0000 <= a * UNITS_PER_ONE
                <= 0x0800_0000_0000_0000_0000_0000) by (nonlinear_arith)
                requires
                    -0x8000_0000_0000_0000 <= a <= 0x8000_0000_0000_0000,
            ;
        }
        Fixed {
            raw: saturate_wide(divide_wide(a * UNITS_PER_ONE as i128, o.raw as i128)),
        }
    }

    /// The magnitude `|self|`.
    pub fn abs(self) -> (r: Fixed)
        ensures
            r.raw == abs_raw(self.raw as int),
            r.raw >= 0,
    {
        if self.raw < 0 {
            Fixed { raw: saturate_wide(-(self.raw as i128)) }
        } else {
            self
        }
    }

    /// The negation `-self`.
    pub fn saturating_neg(self) -> (r: Fixed)
        ensures
            r.raw == saturate(-self.raw),
    {
        Fixed { raw: saturate_wide(-(self.raw as i128)) }
    }
}

} // verus!
