//! Decimal fixed-point numbers.
//!
//! Every quantity that the measurement pipeline handles (milliseconds,
//! megabits per second, ratios, scores) is a [`Fixed`]: a signed count of
//! millionths. Arithmetic on it is exact integer arithmetic, so a result is
//! the same on every machine and every run, and each operation has a
//! contract over mathematical integers.

use vstd::prelude::*;

verus! {

/// Number of units of a [`Fixed`] that make one whole.
pub const SCALE: i64 = 1_000_000;

/// The whole number `n` in units of a [`Fixed`].
pub open spec fn units(n: int) -> int {
    n * 1_000_000
}

/// The nearest value to `v` that an `i64` can hold.
pub open spec fn clamp(v: int) -> int {
    if v < i64::MIN as int {
        i64::MIN as int
    } else if v > i64::MAX as int {
        i64::MAX as int
    } else {
        v
    }
}

/// The quotient of `a` by `b`, rounded toward zero.
pub open spec fn quot(a: int, b: int) -> int
    recommends
        b != 0,
{
    if a >= 0 && b > 0 {
        a / b
    } else if a < 0 && b > 0 {
        -((-a) / b)
    } else if a >= 0 && b < 0 {
        -(a / (-b))
    } else {
        (-a) / (-b)
    }
}

/// The sum of the units of all elements of `s`.
pub open spec fn sum(s: Seq<Fixed>) -> int
    decreases s.len(),
{
    if s.len() == 0 {
        0
    } else {
        sum(s.drop_last()) + s.last().micros as int
    }
}

/// The arithmetic mean of `s` in units, rounded toward zero; zero for the
/// empty sequence.
pub open spec fn mean(s: Seq<Fixed>) -> int {
    if s.len() == 0 {
        0
    } else {
        quot(sum(s), s.len() as int)
    }
}

/// `r` is the integer square root of `n`.
pub open spec fn is_sqrt(n: int, r: int) -> bool {
    0 <= r && r * r <= n && n < (r + 1) * (r + 1)
}

/// A decimal fixed-point number: `micros` millionths.
#[derive(Clone, Copy, Debug, PartialEq, Eq, Structural)]
pub struct Fixed {
    pub micros: i64,
}

impl View for Fixed {
    type V = int;

    /// The number in units of one millionth.
    open spec fn view(&self) -> int {
        self.micros as int
    }
}

impl Fixed {
    /// Sum, held within the range of the type.
    pub open spec fn add_spec(self, rhs: Fixed) -> int {
        clamp(self@ + rhs@)
    }

    /// Difference, held within the range of the type.
    pub open spec fn sub_spec(self, rhs: Fixed) -> int {
        clamp(self@ - rhs@)
    }

    /// Product, rounded toward zero and held within the range of the type.
    pub open spec fn mul_spec(self, rhs: Fixed) -> int {
        clamp(quot(self@ * rhs@, SCALE as int))
    }

    /// Quotient, rounded toward zero and held within the range of the type.
    pub open spec fn div_spec(self, rhs: Fixed) -> int
        recommends
            rhs@ != 0,
    {
        clamp(quot(self@ * SCALE, rhs@))
    }

    /// The number truncated to a whole and held within `0 ..= u32::MAX`.
    pub open spec fn whole_u32_spec(self) -> int {
        if self@ < 0 {
            0
        } else if self@ / (SCALE as int) > u32::MAX as int {
            u32::MAX as int
        } else {
            self@ / (SCALE as int)
        }
    }

    pub fn from_micros(micros: i64) -> (r: Fixed)
        ensures
            r@ == micros,
    {
        Fixed { micros }
    }

    /// The whole number `units`.
    pub fn from_int(units: i32) -> (r: Fixed)
        ensures
            r@ == units * SCALE,
    {
        let wide: i64 = units as i64;
        Fixed { micros: wide * SCALE }
    }

    pub fn zero() -> (r: Fixed)
        ensures
            r@ == 0,
    {
        Fixed { micros: 0 }
    }

    /// The larger of the two.
    pub fn max_of(self, rhs: Fixed) -> (r: Fixed)
        ensures
            r@ == if self@ >= rhs@ { self@ } else { rhs@ },
    {
        if self.micros >= rhs.micros {
            self
        } else {
            rhs
        }
    }

    pub fn saturating_add(self, rhs: Fixed) -> (r: Fixed)
        ensures
            r@ == self.add_spec(rhs),
    {
        let wide: i128 = self.micros as i128 + rhs.micros as i128;
        Fixed { micros: narrow(wide) }
    }

    pub fn saturating_sub(self, rhs: Fixed) -> (r: Fixed)
        ensures
            r@ == self.sub_spec(rhs),
    {
        let wide: i128 = self.micros as i128 - rhs.micros as i128;
        Fixed { micros: narrow(wide) }
    }

    /// The distance between the two, held within the range of the type.
    pub fn abs_diff(self, rhs: Fixed) -> (r: Fixed)
        ensures
            r@ == clamp(if self@ >= rhs@ { self@ - rhs@ } else { rhs@ - self@ }),
    {
        if self.micros >= rhs.micros {
            self.saturating_sub(rhs)
        } else {
            rhs.saturating_sub(self)
        }
    }

    pub fn saturating_mul(self, rhs: Fixed) -> (r: Fixed)
        ensures
            r@ == self.mul_spec(rhs),
    {
        let a: i128 = self.micros as i128;
        let b: i128 = rhs.micros as i128;
        assert(-0x4000_0000_0000_0000_0000_0000_0000_0000 <= a * b
            <= 0x4000_0000_0000_0000_0000_0000_0000_0000) by (nonlinear_arith)
            requires
                -0x8000_0000_0000_0000 <= a <= 0x7fff_ffff_ffff_ffff,
                -0x8000_0000_0000_0000 <= b <= 0x7fff_ffff_ffff_ffff,
        ;
        let wide: i128 = quot_i128(a * b, SCALE as i128);
        Fixed { micros: narrow(wide) }
    }

    pub fn saturating_div(self, rhs: Fixed) -> (r: Fixed)
        requires
            rhs@ != 0,
        ensures
            r@ == self.div_spec(rhs),
    {
        let a: i128 = self.micros as i128;
        let scaled: i128 = a * 1_000_000;
        let wide: i128 = quot_i128(scaled, rhs.micros as i128);
        Fixed { micros: narrow(wide) }
    }

    /// The whole part as a `u32`: nothing below zero, nothing above
    /// `u32::MAX`.
    pub fn whole_u32(self) -> (r: u32)
        ensures
            r == self.whole_u32_spec(),
    {
        if self.micros < 0 {
            0
        } else {
            let whole: i64 = self.micros / SCALE;
            if whole > 0xffff_ffff {
                u32::MAX
            } else {
                whole as u32
            }
        }
    }

    /// The square root, rounded down to the nearest millionth.
    pub fn sqrt(self) -> (r: Fixed)
        requires
            self@ >= 0,
        ensures
            is_sqrt(self@ * SCALE, r@),
    {
        let n: u128 = (self.micros as u128) * 1_000_000;
        let mut lo: u128 = 0;
        let mut hi: u128 = 0x400_0000_0000;
        assert(n < 0x400_0000_0000 * 0x400_0000_0000) by (nonlinear_arith)
            requires
                n < 0x8000_0000_0000_0000 * 1_000_000,
        ;
        while hi - lo > 1
            invariant
                lo < hi <= 0x400_0000_0000,
                lo * lo <= n < hi * hi,
            decreases hi - lo,
        {
            let mid: u128 = lo + (hi - lo) / 2;
            assert(mid * mid < 0x400_0000_0000 * 0x400_0000_0000) by (nonlinear_arith)
                requires
                    mid < 0x400_0000_0000,
            ;
            if mid * mid <= n {
                lo = mid;
            } else {
                hi = mid;
            }
        }
        assert(hi == lo + 1);
        Fixed { micros: lo as i64 }
    }
}

/// The value of `wide`, held within the range of an `i64`.
pub(crate) fn narrow(wide: i128) -> (r: i64)
    ensures
        r == clamp(wide as int),
{
    if wide < i64::MIN as i128 {
        i64::MIN
    } else if wide > i64::MAX as i128 {
        i64::MAX
    } else {
        wide as i64
    }
}

/// Division of wide integers, rounded toward zero.
pub(crate) fn quot_i128(a: i128, b: i128) -> (r: i128)
    requires
        b != 0,
        i128::MIN < a,
        i128::MIN < b,
    ensures
        r == quot(a as int, b as int),
{
    let a_mag: u128 = if a < 0 { (-a) as u128 } else { a as u128 };
    let b_mag: u128 = if b < 0 { (-b) as u128 } else { b as u128 };
    let q: u128 = a_mag / b_mag;
    assert(q <= a_mag) by (nonlinear_arith)
        requires
            q == a_mag / b_mag,
            b_mag >= 1,
    ;
    if (a < 0) != (b < 0) {
        -(q as i128)
    } else {
        q as i128
    }
}

/// A mean of numbers lies between any bounds that hold of all of them.
pub proof fn lemma_mean_within(s: Seq<Fixed>, lo: int, hi: int)
    requires
        s.len() > 0,
        forall|i: int| 0 <= i < s.len() ==> lo <= #[trigger] s[i]@ <= hi,
    ensures
        lo <= mean(s) <= hi,
{
    lemma_sum_within(s, lo, hi);
    let n: int = s.len() as int;
    let t: int = sum(s);
    lemma_quot_within(t, n, lo, hi);
}

/// The sum of `n` numbers between `lo` and `hi` lies between `n * lo` and
/// `n * hi`.
pub proof fn lemma_sum_within(s: Seq<Fixed>, lo: int, hi: int)
    requires
        forall|i: int| 0 <= i < s.len() ==> lo <= #[trigger] s[i]@ <= hi,
    ensures
        s.len() * lo <= sum(s) <= s.len() * hi,
    decreases s.len(),
{
    if s.len() > 0 {
        let rest = s.drop_last();
        assert forall|i: int| 0 <= i < rest.len() implies lo <= #[trigger] rest[i]@ <= hi by {
            assert(rest[i] == s[i]);
        }
        lemma_sum_within(rest, lo, hi);
        assert(lo <= s[s.len() - 1]@ <= hi);
        assert(s.len() * lo == rest.len() * lo + lo) by (nonlinear_arith)
            requires
                s.len() == rest.len() + 1,
        ;
        assert(s.len() * hi == rest.len() * hi + hi) by (nonlinear_arith)
            requires
                s.len() == rest.len() + 1,
        ;
    }
}

/// A total between `n * lo` and `n * hi`, divided by `n`, lies between `lo`
/// and `hi`.
pub proof fn lemma_quot_within(t: int, n: int, lo: int, hi: int)
    requires
        n > 0,
        n * lo <= t <= n * hi,
    ensures
        lo <= quot(t, n) <= hi,
{
    if t >= 0 {
        assert(lo <= t / n <= hi) by (nonlinear_arith)
            requires
                n > 0,
                n * lo <= t <= n * hi,
        ;
    } else {
        let u: int = -t;
        assert(n * (-hi) == -(n * hi)) by (nonlinear_arith);
        assert(n * (-lo) == -(n * lo)) by (nonlinear_arith);
        assert(-hi <= u / n) by (nonlinear_arith)
            requires
                n > 0,
                u >= n * (-hi),
                u > 0,
        ;
        assert(u / n <= -lo) by (nonlinear_arith)
            requires
                n > 0,
                u <= n * (-lo),
                u > 0,
        ;
    }
}

/// The arithmetic mean of `values`, rounded toward zero; zero when there is
/// none.
pub fn mean_of(values: &[Fixed]) -> (r: Fixed)
    ensures
        r@ == mean(values@),
{
    let n: usize = values.len();
    if n == 0 {
        return Fixed { micros: 0 };
    }
    let mut total: i128 = 0;
    let mut i: usize = 0;
    while i < n
        invariant
            n == values.len(),
            0 <= i <= n,
            total == sum(values@.take(i as int)),
            i * (i64::MIN as int) <= total <= i * (i64::MAX as int),
        decreases n - i,
    {
        let ghost before = values@.take(i as int);
        let ghost after = values@.take(i + 1);
        proof {
            assert(after.drop_last() =~= before);
            assert(after.last() == values@[i as int]);
            assert((i + 1) * (i64::MIN as int) == i * (i64::MIN as int) + (i64::MIN as int))
                by (nonlinear_arith);
            assert((i + 1) * (i64::MAX as int) == i * (i64::MAX as int) + (i64::MAX as int))
                by (nonlinear_arith);
            assert(i * (i64::MIN as int) >= 0xffff_ffff_ffff_ffff * (i64::MIN as int))
                by (nonlinear_arith)
                requires
                    0 <= i <= 0xffff_ffff_ffff_ffff,
            ;
            assert(i * (i64::MAX as int) <= 0xffff_ffff_ffff_ffff * (i64::MAX as int))
                by (nonlinear_arith)
                requires
                    0 <= i <= 0xffff_ffff_ffff_ffff,
            ;
        }
        total = total + values[i].micros as i128;
        i = i + 1;
    }
    proof {
        assert(values@.take(n as int) =~= values@);
        assert(n * (i64::MIN as int) >= 0xffff_ffff_ffff_ffff * (i64::MIN as int))
            by (nonlinear_arith)
            requires
                0 <= n <= 0xffff_ffff_ffff_ffff,
        ;
        lemma_quot_within(total as int, n as int, i64::MIN as int, i64::MAX as int);
    }
    let q: i128 = quot_i128(total, n as i128);
    Fixed { micros: q as i64 }
}

} // verus!
