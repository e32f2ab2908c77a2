//! The benchmark's scalar: a signed 32-bit fixed-point number with twelve
//! fraction bits, and the cubic Bézier evaluation over it.
//!
//! Every operation states its result exactly, shifts included, so the
//! rounding of every computation over the scalar is pinned bit for bit.

use vstd::prelude::*;

verus! {

/// How many low bits hold the fraction.
pub const SHIFT: u32 = 12;

/// One fixed-point scalar: `raw() / 4096` as a real number.
#[derive(Clone, Copy, Debug, Default, PartialEq, Eq, Structural)]
pub struct FixedPoint(i32);

/// The raw word of the product of two scalars: the 24-fraction-bit product
/// shifted back to 12 fraction bits (arithmetic shift, rounding toward
/// minus infinity). Meaningful when the product fits the word.
pub open spec fn spec_mul(a: int, b: int) -> int {
    (((a * b) as i32) >> (SHIFT as i32)) as int
}

/// Whether the raw product of two scalars fits the 32-bit word.
pub open spec fn mul_fits(a: int, b: int) -> bool {
    i32::MIN <= a * b <= i32::MAX
}

/// The raw word of the cubic Bézier polynomial `a(1-t)³ + 3b t(1-t)² +
/// 3c t²(1-t) + d t³` evaluated in a fixed operation order, each product
/// rounded as [`spec_mul`] rounds. Meaningful when [`parametric_fits`]
/// holds of the same words.
pub open spec fn spec_parametric(t: int, a: int, b: int, c: int, d: int) -> int {
    let t2 = spec_mul(t, t);
    let t3 = spec_mul(t2, t);
    let t_1 = 4096 - t;
    let t_12 = spec_mul(t_1, t_1);
    let t_13 = spec_mul(t_12, t_1);
    let c3 = 3int * 4096;
    spec_mul(a, t_13) + spec_mul(b, spec_mul(c3, spec_mul(t, t_12))) + spec_mul(
        c,
        spec_mul(c3, spec_mul(t2, t_1)),
    ) + spec_mul(d, t3)
}

/// Every intermediate of [`spec_parametric`] fits its 32-bit word: each
/// product before its shift, and each partial sum.
pub open spec fn parametric_fits(t: int, a: int, b: int, c: int, d: int) -> bool {
    let t2 = spec_mul(t, t);
    let t3 = spec_mul(t2, t);
    let t_1 = 4096 - t;
    let t_12 = spec_mul(t_1, t_1);
    let t_13 = spec_mul(t_12, t_1);
    let c3 = 3int * 4096;
    let m1 = spec_mul(a, t_13);
    let q1 = spec_mul(t, t_12);
    let q2 = spec_mul(c3, q1);
    let m2 = spec_mul(b, q2);
    let p1 = spec_mul(t2, t_1);
    let p2 = spec_mul(c3, p1);
    let m3 = spec_mul(c, p2);
    let m4 = spec_mul(d, t3);
    &&& mul_fits(t, t)
    &&& mul_fits(t2, t)
    &&& i32::MIN <= t_1 <= i32::MAX
    &&& mul_fits(t_1, t_1)
    &&& mul_fits(t_12, t_1)
    &&& mul_fits(a, t_13)
    &&& mul_fits(t, t_12)
    &&& mul_fits(c3, q1)
    &&& mul_fits(b, q2)
    &&& mul_fits(t2, t_1)
    &&& mul_fits(c3, p1)
    &&& mul_fits(c, p2)
    &&& mul_fits(d, t3)
    &&& i32::MIN <= m1 + m2 <= i32::MAX
    &&& i32::MIN <= m1 + m2 + m3 <= i32::MAX
    &&& i32::MIN <= m1 + m2 + m3 + m4 <= i32::MAX
}

/// A quotient rounded toward zero, as machine division computes it: the
/// quotient of the magnitudes, negated when the signs differ.
pub open spec fn trunc_div(a: int, b: int) -> int {
    let q = (if a < 0 {
        -a
    } else {
        a
    }) / (if b < 0 {
        -b
    } else {
        b
    });
    if (a < 0) != (b < 0) {
        -q
    } else {
        q
    }
}

/// The raw word a division starts from: the dividend shifted up by the
/// fraction bits.
pub open spec fn spec_div_dividend(a: int) -> int {
    ((a as i32) << (SHIFT as i32)) as int
}

impl FixedPoint {
    /// The raw 32-bit word.
    pub closed spec fn raw(&self) -> int {
        self.0 as int
    }

    /// An integer scaled into fixed point: the value shifted up by the
    /// fraction bits. Faithful to the word only for integers within
    /// ±2^19.
    pub fn new(value: i32) -> (r: FixedPoint)
        ensures
            r.raw() == (value << (SHIFT as i32)) as int,
            -0x8_0000 <= value < 0x8_0000 ==> r.raw() == value * 4096,
    {
        proof {
            let v = value;
            assert(-0x8_0000 <= v < 0x8_0000 ==> (v << 12i32) as int == v * 4096) by (bit_vector);
        }
        FixedPoint(value << (SHIFT as i32))
    }

    /// The raw word, for printing and checksums.
    pub fn into_primitive(self) -> (r: i32)
        ensures
            r as int == self.raw(),
    {
        self.0
    }

    /// Sum of two scalars; the exact sum must fit the word.
    pub fn add(self, rhs: FixedPoint) -> (r: FixedPoint)
        requires
            i32::MIN <= self.raw() + rhs.raw() <= i32::MAX,
        ensures
            r.raw() == self.raw() + rhs.raw(),
    {
        FixedPoint(self.0 + rhs.0)
    }

    /// Add a scalar in place; the exact sum must fit the word.
    pub fn add_assign(&mut self, rhs: FixedPoint)
        requires
            i32::MIN <= old(self).raw() + rhs.raw() <= i32::MAX,
        ensures
            final(self).raw() == old(self).raw() + rhs.raw(),
    {
        self.0 = self.0 + rhs.0;
    }

    /// Difference of two scalars; the exact difference must fit the word.
    pub fn sub(self, rhs: FixedPoint) -> (r: FixedPoint)
        requires
            i32::MIN <= self.raw() - rhs.raw() <= i32::MAX,
        ensures
            r.raw() == self.raw() - rhs.raw(),
    {
        FixedPoint(self.0 - rhs.0)
    }

    /// Product of two scalars: the raw product shifted back down, rounding
    /// toward minus infinity. The raw product must fit the word.
    pub fn mul(self, rhs: FixedPoint) -> (r: FixedPoint)
        requires
            mul_fits(self.raw(), rhs.raw()),
        ensures
            r.raw() == spec_mul(self.raw(), rhs.raw()),
    {
        FixedPoint((self.0 * rhs.0) >> SHIFT)
    }

    /// Product with a plain integer; the exact product must fit the word.
    pub fn mul_i32(self, rhs: i32) -> (r: FixedPoint)
        requires
            i32::MIN <= self.raw() * rhs <= i32::MAX,
        ensures
            r.raw() == self.raw() * rhs,
    {
        FixedPoint(self.0 * rhs)
    }

    /// A decimal number scaled into fixed point. The fraction digits are
    /// dropped: an integer-valued scalar keeps only the integer part.
    pub fn from_decimal(sign: i32, integer: u32, _fraction: u32, _dec: u32) -> (r: FixedPoint)
        requires
            integer <= 0x7FFF_FFFF,
            i32::MIN <= sign * (integer as int) <= i32::MAX,
        ensures
            r.raw() == (((sign * (integer as int)) as i32) << (SHIFT as i32)) as int,
    {
        FixedPoint::new(sign * integer as i32)
    }

    /// An integer scaled into fixed point.
    pub fn from_i32(value: i32) -> (r: FixedPoint)
        ensures
            r.raw() == (value << (SHIFT as i32)) as int,
    {
        FixedPoint::new(value)
    }

    /// The parameter for step `step` of `total`: `step / total` in fixed
    /// point.
    pub fn from_step(step: i32, total: i32) -> (r: FixedPoint)
        requires
            total != 0,
            !((step << (SHIFT as i32)) as int == i32::MIN && total == -1),
        ensures
            r.raw() == trunc_div(((step << (SHIFT as i32)) as i32) as int, total as int),
    {
        FixedPoint::new(step).div_i32(total)
    }

    /// The cubic Bézier polynomial `a(1-t)³ + 3b t(1-t)² + 3c t²(1-t) +
    /// d t³`, evaluated in a fixed operation order so the rounding is
    /// pinned bit for bit. Every intermediate must fit its word; see
    /// [`parametric_fits`].
    pub fn parametric(t: FixedPoint, a: FixedPoint, b: FixedPoint, c: FixedPoint, d: FixedPoint)
        -> (r: FixedPoint)
        requires
            parametric_fits(t.raw(), a.raw(), b.raw(), c.raw(), d.raw()),
        ensures
            r.raw() == spec_parametric(t.raw(), a.raw(), b.raw(), c.raw(), d.raw()),
    {
        let t2 = t.mul(t);
        let t3 = t2.mul(t);
        let t_1 = FixedPoint::new(1).sub(t);
        let t_12 = t_1.mul(t_1);
        let t_13 = t_12.mul(t_1);
        let c3 = FixedPoint::new(3);

        // The bracketing fixes where the products are rounded; it must
        // stay exactly as it is.
        a.mul(t_13).add(b.mul(c3.mul(t.mul(t_12)))).add(c.mul(c3.mul(t2.mul(t_1)))).add(
            d.mul(t3),
        )
    }

    /// Quotient of two scalars: the dividend shifted up to keep twelve
    /// fraction bits, then divided with truncation toward zero. The divisor
    /// must be non-zero, and the shifted dividend must not be the one value
    /// whose negation overflows the word.
    pub fn div(self, rhs: FixedPoint) -> (r: FixedPoint)
        requires
            rhs.raw() != 0,
            !(spec_div_dividend(self.raw()) == i32::MIN && rhs.raw() == -1),
        ensures
            r.raw() == trunc_div(spec_div_dividend(self.raw()), rhs.raw()),
    {
        FixedPoint(trunc_div_i32(self.0 << SHIFT, rhs.0))
    }

    /// Quotient by a plain integer, truncating toward zero; the divisor
    /// must be non-zero and the quotient must fit the word.
    pub fn div_i32(self, rhs: i32) -> (r: FixedPoint)
        requires
            rhs != 0,
            !(self.raw() == i32::MIN && rhs == -1),
        ensures
            r.raw() == trunc_div(self.raw(), rhs as int),
    {
        FixedPoint(trunc_div_i32(self.0, rhs))
    }
}

/// Signed division rounding toward zero, computed over the magnitudes so
/// the rounding is the stated one on every sign combination.
fn trunc_div_i32(a: i32, b: i32) -> (r: i32)
    requires
        b != 0,
        !(a == i32::MIN && b == -1),
    ensures
        r as int == trunc_div(a as int, b as int),
{
    let negative = (a < 0) != (b < 0);

    let wide_a = a as i64;
    let magnitude_a: u32 = if wide_a < 0 {
        (-wide_a) as u32
    } else {
        wide_a as u32
    };
    let wide_b = b as i64;
    let magnitude_b: u32 = if wide_b < 0 {
        (-wide_b) as u32
    } else {
        wide_b as u32
    };

    let quotient = magnitude_a / magnitude_b;
    proof {
        let ma = magnitude_a as int;
        let mb = magnitude_b as int;
        vstd::arithmetic::div_mod::lemma_div_nonincreasing(ma, mb);
        if mb >= 2 {
            vstd::arithmetic::div_mod::lemma_div_is_ordered_by_denominator(ma, 2, mb);
        }
    }

    if negative {
        if quotient >= 0x8000_0000 {
            i32::MIN
        } else {
            -(quotient as i32)
        }
    } else {
        quotient as i32
    }
}

} // verus!
