//! Fixed-point scalars and vectors.
//!
//! One world unit is split into `MILLI` subunits and one degree into `MILLI`
//! millidegrees, so positions, distances and angles are exact `i64` values.

use vstd::prelude::*;

verus! {

/// Subunits per world unit (and millidegrees per degree).
pub const MILLI: i64 = 1000;

/// Largest coordinate magnitude, in milliunits, that positions handled by the
/// simulation may have. Keeps squared distances inside `i64`.
pub const COORD_LIMIT: i64 = 0x2000_0000;

/// Largest magnitude an input accumulator (mouse motion, scroll) may reach.
pub const ACC_LIMIT: i64 = 0x100_0000_0000;

/// Largest magnitude allowed for per-milliunit factors such as sensitivities
/// and speeds.
pub const FACTOR_LIMIT: i64 = 0x10_0000;

/// A 3-vector with milliunit coordinates.
#[derive(Clone, Copy, PartialEq, Eq, Structural, Debug)]
pub struct Vec3Milli {
    pub x: i64,
    pub y: i64,
    pub z: i64,
}

impl Vec3Milli {
    /// The vector whose three coordinates are zero.
    pub fn zero() -> (r: Vec3Milli)
        ensures
            r == (Vec3Milli { x: 0, y: 0, z: 0 }),
    {
        Vec3Milli { x: 0, y: 0, z: 0 }
    }

    /// All three coordinates lie within `COORD_LIMIT`.
    pub open spec fn in_range(self) -> bool {
        &&& -COORD_LIMIT <= self.x <= COORD_LIMIT
        &&& -COORD_LIMIT <= self.y <= COORD_LIMIT
        &&& -COORD_LIMIT <= self.z <= COORD_LIMIT
    }
}

/// Whether all three coordinates of `v` lie within `COORD_LIMIT`.
pub fn vec3_in_range(v: &Vec3Milli) -> (r: bool)
    ensures
        r == v.in_range(),
{
    -COORD_LIMIT <= v.x && v.x <= COORD_LIMIT && -COORD_LIMIT <= v.y && v.y <= COORD_LIMIT
        && -COORD_LIMIT <= v.z && v.z <= COORD_LIMIT
}

/// `v` forced into the interval `[lo, hi]`.
pub open spec fn spec_clamp(v: int, lo: int, hi: int) -> int {
    if v < lo {
        lo
    } else if v > hi {
        hi
    } else {
        v
    }
}

/// Clamp a scalar into `[lo, hi]`.
pub fn clamp_i64(v: i64, lo: i64, hi: i64) -> (r: i64)
    requires
        lo <= hi,
    ensures
        r == spec_clamp(v as int, lo as int, hi as int),
{
    if v < lo {
        lo
    } else if v > hi {
        hi
    } else {
        v
    }
}

/// The sum `a + b`, clamped into `[lo, hi]` instead of overflowing.
pub fn clamped_add(a: i64, b: i64, lo: i64, hi: i64) -> (r: i64)
    requires
        lo <= hi,
    ensures
        r == spec_clamp(a + b, lo as int, hi as int),
{
    let s: i128 = a as i128 + b as i128;
    if s < lo as i128 {
        lo
    } else if s > hi as i128 {
        hi
    } else {
        s as i64
    }
}

/// Truncated-toward-zero product of `v` with the factor `f / MILLI`.
pub open spec fn spec_scale_milli(v: int, f: int) -> int {
    if v >= 0 {
        (v * f) / (MILLI as int)
    } else {
        -(((-v) * f) / (MILLI as int))
    }
}

/// Multiply `v` by the per-milliunit factor `f`, truncating toward zero.
pub fn scale_milli(v: i64, f: i64) -> (r: i64)
    requires
        -ACC_LIMIT <= v <= ACC_LIMIT,
        0 <= f <= FACTOR_LIMIT,
    ensures
        r == spec_scale_milli(v as int, f as int),
        -ACC_LIMIT * FACTOR_LIMIT <= r <= ACC_LIMIT * FACTOR_LIMIT,
{
    if v >= 0 {
        assert(v * f <= ACC_LIMIT * FACTOR_LIMIT) by (nonlinear_arith)
            requires
                0 <= v <= ACC_LIMIT,
                0 <= f <= FACTOR_LIMIT,
        ;
        let m: u128 = (v as u128) * (f as u128);
        let q: u128 = m / 1000;
        q as u64 as i64
    } else {
        let n: i64 = -v;
        assert(n * f <= ACC_LIMIT * FACTOR_LIMIT) by (nonlinear_arith)
            requires
                0 <= n <= ACC_LIMIT,
                0 <= f <= FACTOR_LIMIT,
        ;
        let m: u128 = (n as u128) * (f as u128);
        let q: u128 = m / 1000;
        -(q as u64 as i64)
    }
}

/// `x` milliunits rounded to the nearest whole unit, halves away from zero.
pub open spec fn spec_round_milli(x: int) -> int {
    if x >= 0 {
        (x + 500) / 1000
    } else {
        -((-x + 500) / 1000)
    }
}

/// Round a milliunit value to the nearest whole unit, halves away from zero.
pub fn round_milli_to_unit(v: i64) -> (r: i64)
    requires
        -ACC_LIMIT <= v <= ACC_LIMIT,
    ensures
        r == spec_round_milli(v as int),
{
    if v >= 0 {
        ((v as u64 + 500) / 1000) as i64
    } else {
        let n: u64 = (-v) as u64;
        -(((n + 500) / 1000) as i64)
    }
}

/// Largest `r` with `r * r <= n`.
pub open spec fn sqrt_floor(n: nat) -> nat
    decreases n,
{
    if n == 0 {
        0
    } else {
        let p = sqrt_floor((n - 1) as nat);
        if (p + 1) * (p + 1) <= n {
            p + 1
        } else {
            p
        }
    }
}

/// `sqrt_floor(n)` squares to at most `n`, and its successor squares past `n`.
pub proof fn lemma_sqrt_floor_bounds(n: nat)
    ensures
        sqrt_floor(n) * sqrt_floor(n) <= n,
        n < (sqrt_floor(n) + 1) * (sqrt_floor(n) + 1),
    decreases n,
{
    let s = sqrt_floor(n);
    if n > 0 {
        lemma_sqrt_floor_bounds((n - 1) as nat);
        let p = sqrt_floor((n - 1) as nat);
        if (p + 1) * (p + 1) <= n {
            assert(s == p + 1);
            assert(n <= (p + 1) * (p + 1));
            assert(n < (s + 1) * (s + 1)) by (nonlinear_arith)
                requires
                    s == p + 1,
                    n <= (p + 1) * (p + 1),
            ;
        } else {
            assert(s == p);
            assert(p * p <= n - 1);
            assert(s * s <= n && n < (s + 1) * (s + 1)) by (nonlinear_arith)
                requires
                    s == p,
                    p * p <= n - 1,
                    !((p + 1) * (p + 1) <= n),
            ;
        }
    } else {
        assert(s == 0);
        assert(s * s <= n && n < (s + 1) * (s + 1)) by (nonlinear_arith)
            requires
                s == 0,
                n == 0,
        ;
    }
}

/// Two values bracketing `n` the way a floored square root does are equal.
pub proof fn lemma_sqrt_floor_unique(n: nat, a: nat, b: nat)
    by (nonlinear_arith)
    requires
        a * a <= n < (a + 1) * (a + 1),
        b * b <= n < (b + 1) * (b + 1),
    ensures
        a == b,
{
}

/// Floored integer square root, by bisection.
pub fn isqrt_u64(n: u64) -> (r: u64)
    requires
        n < 0x4000_0000_0000_0000,
    ensures
        r == sqrt_floor(n as nat),
        r * r <= n,
        n < (r + 1) * (r + 1),
{
    let mut lo: u64 = 0;
    let mut hi: u64 = 0x8000_0000;
    while lo + 1 < hi
        invariant
            lo < hi <= 0x8000_0000,
            lo * lo <= n,
            n < hi * hi,
        decreases hi - lo,
    {
        let mid: u64 = lo + (hi - lo) / 2;
        assert(mid * mid <= 0x4000_0000_0000_0000) by (nonlinear_arith)
            requires
                mid <= 0x8000_0000,
        ;
        let sq: u64 = mid * mid;
        if sq <= n {
            lo = mid;
        } else {
            hi = mid;
        }
    }
    proof {
        lemma_sqrt_floor_bounds(n as nat);
        lemma_sqrt_floor_unique(n as nat, lo as nat, sqrt_floor(n as nat));
    }
    lo
}

} // verus!
