//! The controllable actor and its seek integrator.
//!
//! `seek` moves a position up to `speed` milliunits per tick along the
//! straight line toward a target, snapping exactly onto the target once the
//! remaining distance falls below the speed. Repeated application reaches
//! the target in a bounded number of ticks (`lemma_seek_converges`).

use vstd::prelude::*;
use vstd::arithmetic::div_mod::lemma_div_is_ordered;
use vstd::arithmetic::div_mod::lemma_div_pos_is_pos;
use vstd::arithmetic::div_mod::lemma_fundamental_div_mod;
use vstd::arithmetic::div_mod::lemma_fundamental_div_mod_converse_div;
use vstd::arithmetic::div_mod::lemma_mod_bound;
use crate::fixed::isqrt_u64;
use crate::fixed::lemma_sqrt_floor_bounds;
use crate::fixed::sqrt_floor;
use crate::fixed::Vec3Milli;
use crate::fixed::COORD_LIMIT;
use crate::fixed::FACTOR_LIMIT;

verus! {

/// The controllable entity: where it stands and where it is headed.
pub struct Player {
    /// Current position, in milliunits.
    pub position: Vec3Milli,
    /// Destination the actor walks toward, if any.
    pub target_position: Option<Vec3Milli>,
}

impl Player {
    /// An actor standing at `position` with no destination.
    pub fn new(position: Vec3Milli) -> (r: Player)
        ensures
            r.position == position,
            r.target_position is None,
    {
        Player { position, target_position: None }
    }
}

/// Magnitude of `v`.
pub open spec fn abs_int(v: int) -> int {
    if v >= 0 {
        v
    } else {
        -v
    }
}

/// Squared Euclidean distance between two positions.
pub open spec fn dist_sq(p: Vec3Milli, t: Vec3Milli) -> int {
    (t.x - p.x) * (t.x - p.x) + (t.y - p.y) * (t.y - p.y) + (t.z - p.z) * (t.z - p.z)
}

/// Sum of the coordinate distances between two positions.
pub open spec fn manhattan(p: Vec3Milli, t: Vec3Milli) -> int {
    abs_int(t.x - p.x) + abs_int(t.y - p.y) + abs_int(t.z - p.z)
}

/// `d * s / n` truncated toward zero.
pub open spec fn spec_trunc_div_scale(d: int, s: int, n: int) -> int {
    if d >= 0 {
        (d * s) / n
    } else {
        -(((-d) * s) / n)
    }
}

/// One seek tick: snap onto the target (signalling arrival) when the
/// remaining distance is under `s`, otherwise advance `s` milliunits along
/// the straight line, each coordinate truncated toward zero.
pub open spec fn spec_seek(p: Vec3Milli, t: Vec3Milli, s: int) -> (Vec3Milli, bool) {
    let d2 = dist_sq(p, t);
    if d2 < s * s {
        (t, true)
    } else {
        let n = sqrt_floor(d2 as nat) as int;
        (
            Vec3Milli {
                x: (p.x + spec_trunc_div_scale(t.x - p.x, s, n)) as i64,
                y: (p.y + spec_trunc_div_scale(t.y - p.y, s, n)) as i64,
                z: (p.z + spec_trunc_div_scale(t.z - p.z, s, n)) as i64,
            },
            false,
        )
    }
}

/// A truncated scaled step never overshoots: it keeps the sign of `d` and
/// at most its magnitude.
proof fn lemma_trunc_step_bounds(d: int, s: int, n: int)
    requires
        0 < s <= n,
    ensures
        d >= 0 ==> 0 <= spec_trunc_div_scale(d, s, n) <= d,
        d < 0 ==> d <= spec_trunc_div_scale(d, s, n) <= 0,
        abs_int(spec_trunc_div_scale(d, s, n)) == (abs_int(d) * s) / n,
{
    let a = abs_int(d);
    let q = (a * s) / n;
    lemma_fundamental_div_mod(a * s, n);
    lemma_mod_bound(a * s, n);
    let r = (a * s) % n;
    assert(0 <= q <= a) by (nonlinear_arith)
        requires
            a * s == n * q + r,
            0 <= r < n,
            0 <= a,
            0 < s <= n,
    ;
}

/// A scaled step of a coordinate spanning at least half the distance moves
/// at least half the speed.
proof fn lemma_trunc_step_half_speed(m: int, s: int, n: int)
    requires
        0 < n,
        0 <= m,
        2 * m >= n + 1,
        2 <= s,
    ensures
        (m * s) / n >= s / 2,
{
    let q = (m * s) / n;
    lemma_fundamental_div_mod(m * s, n);
    lemma_mod_bound(m * s, n);
    let r = (m * s) % n;
    let h = s / 2;
    lemma_fundamental_div_mod(s, 2);
    lemma_mod_bound(s, 2);
    assert(q >= h) by (nonlinear_arith)
        requires
            m * s == n * q + r,
            0 <= r < n,
            s == 2 * h + s % 2,
            0 <= s % 2 < 2,
            2 * m >= n + 1,
            0 < n,
            2 <= s,
    ;
}

/// An unfinished seek tick makes real progress: the next position is still
/// in range and at least half a speed's worth closer to the target in
/// coordinate distance.
pub proof fn lemma_seek_step_progress(p: Vec3Milli, t: Vec3Milli, s: int)
    requires
        p.in_range(),
        t.in_range(),
        2 <= s <= FACTOR_LIMIT,
        dist_sq(p, t) >= s * s,
    ensures
        !spec_seek(p, t, s).1,
        spec_seek(p, t, s).0.in_range(),
        manhattan(spec_seek(p, t, s).0, t) <= manhattan(p, t) - s / 2,
        manhattan(spec_seek(p, t, s).0, t) < manhattan(p, t),
{
    let d2 = dist_sq(p, t);
    let n = sqrt_floor(d2 as nat) as int;
    lemma_sqrt_floor_bounds(d2 as nat);
    assert(s * s >= 4) by (nonlinear_arith)
        requires
            s >= 2,
    ;
    assert(s <= n) by (nonlinear_arith)
        requires
            s >= 0,
            n >= 0,
            s * s <= d2,
            d2 < (n + 1) * (n + 1),
    ;
    let dx = t.x - p.x;
    let dy = t.y - p.y;
    let dz = t.z - p.z;
    lemma_trunc_step_bounds(dx, s, n);
    lemma_trunc_step_bounds(dy, s, n);
    lemma_trunc_step_bounds(dz, s, n);
    let sx = spec_trunc_div_scale(dx, s, n);
    let sy = spec_trunc_div_scale(dy, s, n);
    let sz = spec_trunc_div_scale(dz, s, n);
    // the largest coordinate magnitude
    let ax = abs_int(dx);
    let ay = abs_int(dy);
    let az = abs_int(dz);
    let m = if ax >= ay && ax >= az {
        ax
    } else if ay >= az {
        ay
    } else {
        az
    };
    assert(d2 == ax * ax + ay * ay + az * az) by (nonlinear_arith)
        requires
            ax == abs_int(dx),
            ay == abs_int(dy),
            az == abs_int(dz),
            d2 == dx * dx + dy * dy + dz * dz,
    ;
    assert(d2 <= 3 * (m * m)) by (nonlinear_arith)
        requires
            d2 == ax * ax + ay * ay + az * az,
            0 <= ax <= m,
            0 <= ay <= m,
            0 <= az <= m,
    ;
    assert(m >= 1) by (nonlinear_arith)
        requires
            d2 <= 3 * (m * m),
            d2 >= 4,
            m >= 0,
    ;
    assert(n < 2 * m) by (nonlinear_arith)
        requires
            n >= 0,
            m >= 1,
            n * n <= d2,
            d2 <= 3 * (m * m),
    ;
    if ax >= ay && ax >= az {
        lemma_trunc_step_half_speed(ax, s, n);
        assert(abs_int(sx) >= s / 2);
    } else if ay >= az {
        lemma_trunc_step_half_speed(ay, s, n);
        assert(abs_int(sy) >= s / 2);
    } else {
        lemma_trunc_step_half_speed(az, s, n);
        assert(abs_int(sz) >= s / 2);
    }
    assert(s / 2 >= 1);
    assert(abs_int(sx) + abs_int(sy) + abs_int(sz) >= s / 2);
    let p2 = spec_seek(p, t, s).0;
    assert(p2.x == p.x + sx && p2.y == p.y + sy && p2.z == p.z + sz);
    assert(abs_int(t.x - p2.x) == ax - abs_int(sx));
    assert(abs_int(t.y - p2.y) == ay - abs_int(sy));
    assert(abs_int(t.z - p2.z) == az - abs_int(sz));
}

/// The position after `k` seek ticks toward `t`.
pub open spec fn seek_iter(p: Vec3Milli, t: Vec3Milli, s: int, k: nat) -> Vec3Milli
    decreases k,
{
    if k == 0 {
        p
    } else {
        seek_iter(spec_seek(p, t, s).0, t, s, (k - 1) as nat)
    }
}

/// Seek convergence: from any in-range position, repeated seek ticks land
/// exactly on the target. Every tick before the final snap closes at least
/// half the speed in coordinate distance, so the tick count is bounded by
/// the coordinate distance over half the speed, plus the snap tick.
pub proof fn lemma_seek_converges(p: Vec3Milli, t: Vec3Milli, s: int)
    requires
        p.in_range(),
        t.in_range(),
        2 <= s <= FACTOR_LIMIT,
    ensures
        exists|k: nat| k <= manhattan(p, t) / (s / 2) + 1 && seek_iter(p, t, s, k) == t,
    decreases manhattan(p, t),
{
    let h = s / 2;
    assert(h >= 1);
    let man = manhattan(p, t);
    assert(man >= 0);
    lemma_div_pos_is_pos(man, h);
    if dist_sq(p, t) < s * s {
        let k1: nat = 1;
        assert(spec_seek(p, t, s).0 == t);
        assert(seek_iter(p, t, s, k1) == seek_iter(t, t, s, 0));
        assert(seek_iter(t, t, s, 0) == t);
        assert(k1 <= man / h + 1 && seek_iter(p, t, s, k1) == t);
    } else {
        lemma_seek_step_progress(p, t, s);
        let p2 = spec_seek(p, t, s).0;
        lemma_seek_converges(p2, t, s);
        let k2 = choose|k2: nat| k2 <= manhattan(p2, t) / (s / 2) + 1 && seek_iter(p2, t, s, k2)
            == t;
        // one tick of progress lowers the tick budget by one
        lemma_fundamental_div_mod(man, h);
        lemma_mod_bound(man, h);
        assert(man - h == (man / h - 1) * h + man % h) by (nonlinear_arith)
            requires
                man == h * (man / h) + man % h,
        ;
        lemma_fundamental_div_mod_converse_div(man - h, h, man / h - 1, man % h);
        lemma_div_is_ordered(manhattan(p2, t), man - h, h);
        let k3: nat = k2 + 1;
        assert(seek_iter(p, t, s, k3) == seek_iter(p2, t, s, k2));
        assert(k3 <= man / h + 1 && seek_iter(p, t, s, k3) == t);
    }
}

/// Magnitude of `v` as an unsigned value.
fn abs_to_u64(v: i64) -> (r: u64)
    requires
        v > i64::MIN,
    ensures
        r == abs_int(v as int),
{
    if v >= 0 {
        v as u64
    } else {
        (-v) as u64
    }
}

/// `d * s / n` truncated toward zero, on machine integers.
fn trunc_step(d: i64, s: u64, n: u64) -> (r: i64)
    requires
        -0x8000_0000 <= d <= 0x8000_0000,
        0 < s <= FACTOR_LIMIT,
        n >= 1,
    ensures
        r == spec_trunc_div_scale(d as int, s as int, n as int),
{
    if d >= 0 {
        let du: u64 = d as u64;
        assert(du * s <= 0x8000_0000 * FACTOR_LIMIT) by (nonlinear_arith)
            requires
                0 <= du <= 0x8000_0000,
                0 <= s <= FACTOR_LIMIT,
        ;
        let m: u64 = du * s;
        (m / n) as i64
    } else {
        let du: u64 = (-d) as u64;
        assert(du * s <= 0x8000_0000 * FACTOR_LIMIT) by (nonlinear_arith)
            requires
                0 <= du <= 0x8000_0000,
                0 <= s <= FACTOR_LIMIT,
        ;
        let m: u64 = du * s;
        -((m / n) as i64)
    }
}

/// One seek tick: move `position` up to `speed_milli` milliunits straight
/// toward `target`; when the remaining distance is smaller than the speed,
/// snap exactly onto the target and report arrival.
pub fn seek(position: Vec3Milli, target: Vec3Milli, speed_milli: i64) -> (r: (Vec3Milli, bool))
    requires
        position.in_range(),
        target.in_range(),
        1 <= speed_milli <= FACTOR_LIMIT,
    ensures
        r == spec_seek(position, target, speed_milli as int),
        r.0.in_range(),
        r.1 <==> dist_sq(position, target) < speed_milli * speed_milli,
        r.1 ==> r.0 == target,
{
    let dx: i64 = target.x - position.x;
    let dy: i64 = target.y - position.y;
    let dz: i64 = target.z - position.z;
    let ax: u64 = abs_to_u64(dx);
    let ay: u64 = abs_to_u64(dy);
    let az: u64 = abs_to_u64(dz);
    assert(ax * ax <= 0x4000_0000_0000_0000 - 2 && ay * ay <= 0x4000_0000_0000_0000 - 2 && az * az
        <= 0x4000_0000_0000_0000 - 2) by (nonlinear_arith)
        requires
            0 <= ax <= 2 * COORD_LIMIT,
            0 <= ay <= 2 * COORD_LIMIT,
            0 <= az <= 2 * COORD_LIMIT,
    ;
    let sqx: u64 = ax * ax;
    let sqy: u64 = ay * ay;
    let sqz: u64 = az * az;
    assert(sqx + sqy + sqz < 0x4000_0000_0000_0000) by (nonlinear_arith)
        requires
            0 <= ax <= 2 * COORD_LIMIT,
            0 <= ay <= 2 * COORD_LIMIT,
            0 <= az <= 2 * COORD_LIMIT,
            sqx == ax * ax,
            sqy == ay * ay,
            sqz == az * az,
    ;
    let d2: u64 = sqx + sqy + sqz;
    proof {
        assert(d2 == dist_sq(position, target)) by (nonlinear_arith)
            requires
                d2 == sqx + sqy + sqz,
                sqx == ax * ax,
                sqy == ay * ay,
                sqz == az * az,
                ax == abs_int(dx as int),
                ay == abs_int(dy as int),
                az == abs_int(dz as int),
                dx == target.x - position.x,
                dy == target.y - position.y,
                dz == target.z - position.z,
        ;
    }
    let s64: u64 = speed_milli as u64;
    assert(s64 * s64 == speed_milli * speed_milli && s64 * s64 <= FACTOR_LIMIT * FACTOR_LIMIT)
        by (nonlinear_arith)
        requires
            s64 == speed_milli,
            0 <= s64 <= FACTOR_LIMIT,
    ;
    let s2: u64 = s64 * s64;
    if d2 < s2 {
        (target, true)
    } else {
        let n: u64 = isqrt_u64(d2);
        proof {
            assert(s64 <= n) by (nonlinear_arith)
                requires
                    s64 >= 0,
                    n >= 0,
                    s64 * s64 <= d2,
                    d2 < (n + 1) * (n + 1),
            ;
            lemma_trunc_step_bounds(dx as int, s64 as int, n as int);
            lemma_trunc_step_bounds(dy as int, s64 as int, n as int);
            lemma_trunc_step_bounds(dz as int, s64 as int, n as int);
        }
        let sx: i64 = trunc_step(dx, s64, n);
        let sy: i64 = trunc_step(dy, s64, n);
        let sz: i64 = trunc_step(dz, s64, n);
        let next = Vec3Milli { x: position.x + sx, y: position.y + sy, z: position.z + sz };
        (next, false)
    }
}

} // verus!
