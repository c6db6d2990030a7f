//! Scalar helpers: ceiling division for dispatch sizing, and a fixed-point
//! scalar used everywhere the renderer needs fractional values (viewport
//! placement, projection matrices, grid geometry).

use vstd::prelude::*;

verus! {

/// Number of raw units per whole unit of a fixed-point scalar.
pub const FX_SCALE: i64 = 65536;

/// Ceiling division, used to size compute dispatches over a pixel rectangle.
pub fn div_round_up(num: u32, div: u32) -> (r: u32)
    requires
        div > 0,
    ensures
        r == (num + div - 1) as int / div as int,
        num == 0 ==> r == 0,
        num > 0 ==> r >= 1,
{
    if num == 0 {
        proof {
            assert((div - 1) as int / div as int == 0) by (nonlinear_arith)
                requires
                    div > 0;
        }
        0
    } else {
        let r: u32 = (num - 1) / div + 1;
        proof {
            assert(((num - 1) + div) as int / div as int == (num - 1) as int / div as int + 1)
                by (nonlinear_arith)
                requires
                    div > 0,
                    num >= 1;
        }
        r
    }
}

/// Quotient of `p / d` truncated toward zero, for `d > 0`.
pub open spec fn trunc_div(p: int, d: int) -> int {
    if p >= 0 {
        p / d
    } else {
        -((-p) / d)
    }
}

/// A signed fixed-point scalar worth `raw / FX_SCALE`.
#[derive(Clone, Copy, Debug, PartialEq, Eq, Structural)]
pub struct Fx {
    pub raw: i64,
}

/// What multiplying two fixed-point scalars yields: the product of the raw
/// values scaled back down, truncated toward zero.
pub open spec fn fx_mul_spec(a: int, b: int) -> int {
    trunc_div(a * b, FX_SCALE as int)
}

/// What dividing one fixed-point scalar by another yields.
pub open spec fn fx_div_spec(a: int, b: int) -> int {
    trunc_div(a * FX_SCALE, b)
}

impl Fx {
    pub fn zero() -> (r: Fx)
        ensures
            r.raw == 0,
    {
        Fx { raw: 0 }
    }

    pub fn one() -> (r: Fx)
        ensures
            r.raw == FX_SCALE,
    {
        Fx { raw: FX_SCALE }
    }

    /// The whole number `v`.
    pub fn from_int(v: i32) -> (r: Fx)
        ensures
            r.raw == v * FX_SCALE,
    {
        Fx { raw: (v as i64) * FX_SCALE }
    }

    pub fn add(self, other: Fx) -> (r: Fx)
        requires
            i64::MIN <= self.raw + other.raw <= i64::MAX,
        ensures
            r.raw == self.raw + other.raw,
    {
        Fx { raw: self.raw + other.raw }
    }

    pub fn sub(self, other: Fx) -> (r: Fx)
        requires
            i64::MIN <= self.raw - other.raw <= i64::MAX,
        ensures
            r.raw == self.raw - other.raw,
    {
        Fx { raw: self.raw - other.raw }
    }

    pub fn neg(self) -> (r: Fx)
        requires
            self.raw > i64::MIN,
        ensures
            r.raw == -self.raw,
    {
        Fx { raw: -self.raw }
    }

    pub fn abs(self) -> (r: Fx)
        requires
            self.raw > i64::MIN,
        ensures
            r.raw == if self.raw >= 0 { self.raw as int } else { -self.raw },
    {
        if self.raw >= 0 {
            self
        } else {
            Fx { raw: -self.raw }
        }
    }

    pub fn mul(self, other: Fx) -> (r: Fx)
        requires
            -0x4000_0000 <= self.raw <= 0x4000_0000,
            -0x4000_0000 <= other.raw <= 0x4000_0000,
        ensures
            r.raw == fx_mul_spec(self.raw as int, other.raw as int),
            -0x1000_0000_0000_0000 <= r.raw <= 0x1000_0000_0000_0000,
    {
        proof {
            assert(-0x1000_0000_0000_0000 <= self.raw * other.raw <= 0x1000_0000_0000_0000)
                by (nonlinear_arith)
                requires
                    -0x4000_0000 <= self.raw <= 0x4000_0000,
                    -0x4000_0000 <= other.raw <= 0x4000_0000;
        }
        let p: i64 = self.raw * other.raw;
        Fx { raw: trunc_div_exec(p, FX_SCALE) }
    }

    /// Division by a positive scalar.
    pub fn div(self, other: Fx) -> (r: Fx)
        requires
            other.raw > 0,
            -0x4000_0000_0000 <= self.raw <= 0x4000_0000_0000,
        ensures
            r.raw == fx_div_spec(self.raw as int, other.raw as int),
    {
        let p: i64 = self.raw * FX_SCALE;
        Fx { raw: trunc_div_exec(p, other.raw) }
    }

    /// Square root of a non-negative scalar, truncated to the fixed-point
    /// grid: the result is the largest representable value whose square does
    /// not exceed `self`.
    pub fn sqrt(self) -> (r: Fx)
        requires
            0 <= self.raw <= 0x4000_0000_0000,
        ensures
            r.raw >= 0,
            r.raw * r.raw <= self.raw * FX_SCALE,
            (r.raw + 1) * (r.raw + 1) > self.raw * FX_SCALE,
    {
        let v: u64 = (self.raw as u64) * (FX_SCALE as u64);
        let r: u64 = isqrt64(v);
        proof {
            let rr = r as int;
            assert(rr < 0x1_0000_0000) by (nonlinear_arith)
                requires
                    rr >= 0,
                    rr * rr < 0x1_0000_0000_0000_0000;
        }
        Fx { raw: r as i64 }
    }
}

/// A truncated product of bounded factors is bounded by the scaled product
/// of the bounds.
pub proof fn lemma_fx_mul_bound(a: int, b: int, m1: int, m2: int)
    requires
        m1 >= 0,
        m2 >= 0,
        -m1 <= a <= m1,
        -m2 <= b <= m2,
    ensures
        -(m1 * m2 / FX_SCALE as int) <= fx_mul_spec(a, b) <= m1 * m2 / FX_SCALE as int,
{
    let p = a * b;
    let m = m1 * m2;
    assert(-m <= p <= m) by (nonlinear_arith)
        requires
            p == a * b,
            m == m1 * m2,
            m1 >= 0,
            m2 >= 0,
            -m1 <= a <= m1,
            -m2 <= b <= m2;
    if p >= 0 {
        vstd::arithmetic::div_mod::lemma_div_is_ordered(p, m, FX_SCALE as int);
        vstd::arithmetic::div_mod::lemma_div_pos_is_pos(p, FX_SCALE as int);
    } else {
        vstd::arithmetic::div_mod::lemma_div_is_ordered(-p, m, FX_SCALE as int);
        vstd::arithmetic::div_mod::lemma_div_pos_is_pos(-p, FX_SCALE as int);
    }
}

/// Truncated division of `p` by a positive `d`, computed on magnitudes so
/// that the rounding direction is explicit.
pub(crate) fn trunc_div_exec(p: i64, d: i64) -> (q: i64)
    requires
        d > 0,
        p > i64::MIN,
    ensures
        q == trunc_div(p as int, d as int),
        p >= 0 ==> 0 <= q <= p,
        p < 0 ==> p <= q <= 0,
{
    if p >= 0 {
        let q: u64 = (p as u64) / (d as u64);
        proof {
            assert((p as u64) / (d as u64) <= p as u64) by (nonlinear_arith)
                requires
                    d as u64 > 0;
        }
        q as i64
    } else {
        let m: i64 = -p;
        let q: u64 = (m as u64) / (d as u64);
        proof {
            assert((m as u64) / (d as u64) <= m as u64) by (nonlinear_arith)
                requires
                    d as u64 > 0;
        }
        -(q as i64)
    }
}

/// Integer square root: the largest `r` with `r * r <= v`.
pub fn isqrt64(v: u64) -> (r: u64)
    ensures
        r * r <= v,
        (r + 1) * (r + 1) > v,
{
    let mut lo: u64 = 0;
    let mut hi: u64 = if v < 0xFFFF_FFFF { v } else { 0xFFFF_FFFF };
    proof {
        assert((v + 1) * (v + 1) > v) by (nonlinear_arith);
        assert(0xFFFF_FFFFu64 + 1 < 0x1_0000_0000_0000_0000);
        assert((0xFFFF_FFFFu64 + 1) * (0xFFFF_FFFFu64 + 1) > v) by (nonlinear_arith)
            requires
                v < 0x1_0000_0000_0000_0000;
    }
    while lo < hi
        invariant
            lo <= hi <= 0xFFFF_FFFF,
            lo * lo <= v,
            (hi + 1) * (hi + 1) > v,
        decreases hi - lo,
    {
        let mid: u64 = lo + (hi - lo + 1) / 2;
        proof {
            assert(mid * mid <= 0xFFFF_FFFFu64 * 0xFFFF_FFFFu64) by (nonlinear_arith)
                requires
                    mid <= 0xFFFF_FFFF;
        }
        if mid * mid <= v {
            lo = mid;
        } else {
            hi = mid - 1;
        }
    }
    lo
}

} // verus!
