//! Ground-plane picking.
//!
//! The graphics host unprojects a cursor position into a world-space ray
//! (eye position plus a direction quantized to milliunits); this module does
//! the exact part: mapping pixels to normalized device coordinates and
//! intersecting the ray with the ground plane `y = 0`.

use vstd::prelude::*;
use vstd::arithmetic::div_mod::lemma_div_is_ordered_by_denominator;
use vstd::arithmetic::div_mod::lemma_div_multiples_vanish;
use crate::fixed::Vec3Milli;
use crate::fixed::ACC_LIMIT;
use crate::fixed::COORD_LIMIT;
use crate::fixed::MILLI;
use crate::player::abs_int;

verus! {

/// A ray direction steeper than this many milliunits of vertical drop per
/// unit length can hit the ground; shallower rays count as parallel.
pub const GROUND_EPS_MILLI: i64 = 1;

/// Largest magnitude a quantized unit-direction component may have.
pub const DIR_LIMIT_MILLI: i64 = 2_000;

/// `a / b` truncated toward zero, for `b != 0`.
pub open spec fn spec_trunc_div(a: int, b: int) -> int {
    if b > 0 {
        if a >= 0 {
            a / b
        } else {
            -((-a) / b)
        }
    } else {
        if a >= 0 {
            -(a / (-b))
        } else {
            (-a) / (-b)
        }
    }
}

/// A cursor position in millipixels mapped over a `w` by `h` pixel viewport
/// to normalized device coordinates in thousandths: x spans `[-1000, 1000]`
/// left to right, y spans `[-1000, 1000]` bottom to top (the pixel y axis is
/// inverted).
pub open spec fn spec_cursor_to_ndc(cx: int, cy: int, w: int, h: int) -> (int, int) {
    ((2 * cx) / w - 1000, 1000 - (2 * cy) / h)
}

/// Map a cursor position, in millipixels, to normalized device coordinates
/// in thousandths.
pub fn cursor_to_ndc(cursor_x_milli: i64, cursor_y_milli: i64, width: u32, height: u32) -> (r: (
    i64,
    i64,
))
    requires
        0 <= cursor_x_milli <= ACC_LIMIT,
        0 <= cursor_y_milli <= ACC_LIMIT,
        width > 0,
        height > 0,
    ensures
        (r.0 as int, r.1 as int) == spec_cursor_to_ndc(
            cursor_x_milli as int,
            cursor_y_milli as int,
            width as int,
            height as int,
        ),
{
    let qx: u64 = (2 * cursor_x_milli as u64) / (width as u64);
    let qy: u64 = (2 * cursor_y_milli as u64) / (height as u64);
    proof {
        lemma_div_is_ordered_by_denominator(2 * cursor_x_milli as int, 1, width as int);
        lemma_div_is_ordered_by_denominator(2 * cursor_y_milli as int, 1, height as int);
    }
    ((qx as i64) - 1000, 1000 - (qy as i64))
}

/// Where a ray from `o` along `d` meets the ground plane `y = 0`: none when
/// the ray is too shallow (`|d.y|` within `GROUND_EPS_MILLI`) or when the
/// plane lies behind the origin; otherwise the intersection point, with its
/// height exactly zero and the other coordinates advanced by the truncated
/// ray parameter `t = -o.y * MILLI / d.y`.
pub open spec fn spec_intersect_ground(o: Vec3Milli, d: Vec3Milli) -> Option<Vec3Milli> {
    if abs_int(d.y as int) <= GROUND_EPS_MILLI {
        None
    } else {
        let tm = spec_trunc_div(-o.y * MILLI, d.y as int);
        if tm <= 0 {
            None
        } else {
            Some(
                Vec3Milli {
                    x: (o.x + spec_trunc_div(tm * d.x, MILLI as int)) as i64,
                    y: 0,
                    z: (o.z + spec_trunc_div(tm * d.z, MILLI as int)) as i64,
                },
            )
        }
    }
}

/// `a / b` truncated toward zero on machine integers.
fn trunc_div_i64(a: i64, b: i64) -> (r: i64)
    requires
        -0x100_0000_0000_0000 <= a <= 0x100_0000_0000_0000,
        b != 0,
        b > i64::MIN,
    ensures
        r == spec_trunc_div(a as int, b as int),
        -0x100_0000_0000_0000 <= r <= 0x100_0000_0000_0000,
        abs_int(r as int) <= abs_int(a as int),
{
    let au: u64 = if a >= 0 {
        a as u64
    } else {
        (-a) as u64
    };
    let bu: u64 = if b >= 0 {
        b as u64
    } else {
        (-b) as u64
    };
    let q: u64 = au / bu;
    proof {
        lemma_div_is_ordered_by_denominator(au as int, 1, bu as int);
    }
    if (a >= 0) == (b > 0) {
        q as i64
    } else {
        -(q as i64)
    }
}

/// Intersect a picking ray with the ground plane.
pub fn intersect_ground(origin: Vec3Milli, dir: Vec3Milli) -> (r: Option<Vec3Milli>)
    requires
        origin.in_range(),
        -DIR_LIMIT_MILLI <= dir.x <= DIR_LIMIT_MILLI,
        -DIR_LIMIT_MILLI <= dir.y <= DIR_LIMIT_MILLI,
        -DIR_LIMIT_MILLI <= dir.z <= DIR_LIMIT_MILLI,
    ensures
        r == spec_intersect_ground(origin, dir),
        r is Some ==> r->Some_0.y == 0,
{
    let dy_abs: i64 = if dir.y >= 0 {
        dir.y
    } else {
        -dir.y
    };
    if dy_abs <= GROUND_EPS_MILLI {
        return None;
    }
    let t_milli: i64 = trunc_div_i64(-origin.y * 1000, dir.y);
    if t_milli <= 0 {
        return None;
    }
    assert(t_milli * dir.x <= 0x100_0000_0000_0000 * DIR_LIMIT_MILLI && t_milli * dir.x
        >= -(0x100_0000_0000_0000 * DIR_LIMIT_MILLI)) by (nonlinear_arith)
        requires
            0 <= t_milli <= 0x100_0000_0000_0000,
            -DIR_LIMIT_MILLI <= dir.x <= DIR_LIMIT_MILLI,
    ;
    assert(t_milli * dir.z <= 0x100_0000_0000_0000 * DIR_LIMIT_MILLI && t_milli * dir.z
        >= -(0x100_0000_0000_0000 * DIR_LIMIT_MILLI)) by (nonlinear_arith)
        requires
            0 <= t_milli <= 0x100_0000_0000_0000,
            -DIR_LIMIT_MILLI <= dir.z <= DIR_LIMIT_MILLI,
    ;
    let step_x: i64 = trunc_div_wide(t_milli, dir.x);
    let step_z: i64 = trunc_div_wide(t_milli, dir.z);
    Some(Vec3Milli { x: origin.x + step_x, y: 0, z: origin.z + step_z })
}

/// `t * d / MILLI` truncated toward zero, with the product taken in a wide
/// intermediate.
fn trunc_div_wide(t: i64, d: i64) -> (r: i64)
    requires
        0 <= t <= 0x100_0000_0000_0000,
        -DIR_LIMIT_MILLI <= d <= DIR_LIMIT_MILLI,
    ensures
        r == spec_trunc_div(t * d, MILLI as int),
        -0x200_0000_0000_0000 <= r <= 0x200_0000_0000_0000,
{
    proof {
        assert(-(0x100_0000_0000_0000 * DIR_LIMIT_MILLI) <= t * d <= 0x100_0000_0000_0000
            * DIR_LIMIT_MILLI) by (nonlinear_arith)
            requires
                0 <= t <= 0x100_0000_0000_0000,
                -DIR_LIMIT_MILLI <= d <= DIR_LIMIT_MILLI,
        ;
    }
    let p: i128 = (t as i128) * (d as i128);
    let pu: u128 = if p >= 0 {
        p as u128
    } else {
        (-p) as u128
    };
    let q: u128 = pu / 1000;
    proof {
        vstd::arithmetic::div_mod::lemma_div_is_ordered(
            pu as int,
            0x100_0000_0000_0000 * DIR_LIMIT_MILLI,
            1000,
        );
    }
    if p >= 0 {
        (q as u64) as i64
    } else {
        -((q as u64) as i64)
    }
}

/// A ray aimed exactly at a ground point from above returns exactly that
/// point: aiming the direction `g - o` at a ground point `g` from an origin
/// higher than the parallel threshold, the intersection is `g` itself.
pub proof fn lemma_pick_ray_through_point(o: Vec3Milli, g: Vec3Milli, d: Vec3Milli)
    requires
        g.y == 0,
        o.y > GROUND_EPS_MILLI,
        d.x == g.x - o.x,
        d.y == -o.y,
        d.z == g.z - o.z,
        -COORD_LIMIT <= d.x <= COORD_LIMIT,
        -COORD_LIMIT <= d.z <= COORD_LIMIT,
        g.in_range(),
        o.in_range(),
    ensures
        spec_intersect_ground(o, d) == Some(g),
{
    let oy = o.y as int;
    assert(abs_int(d.y as int) == oy);
    // t = (-o.y * 1000) / (-o.y) = 1000 exactly
    let tm = spec_trunc_div(-o.y * MILLI, d.y as int);
    assert(tm == (oy * 1000) / oy);
    lemma_div_multiples_vanish(1000, oy);
    assert(tm == 1000);
    // each lateral step is exactly the coordinate difference
    lemma_trunc_div_thousand(d.x as int);
    lemma_trunc_div_thousand(d.z as int);
    assert(spec_trunc_div(tm * d.x, MILLI as int) == d.x);
    assert(spec_trunc_div(tm * d.z, MILLI as int) == d.z);
}

/// `1000 * v / 1000` truncated toward zero is `v` again.
proof fn lemma_trunc_div_thousand(v: int)
    ensures
        spec_trunc_div(1000 * v, 1000) == v,
{
    if v >= 0 {
        lemma_div_multiples_vanish(v, 1000);
    } else {
        lemma_div_multiples_vanish(-v, 1000);
        assert(-(1000 * v) == 1000 * (-v)) by (nonlinear_arith);
    }
}

} // verus!
