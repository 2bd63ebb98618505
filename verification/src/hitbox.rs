//! Collision predicates: circle against circle, and oriented rectangle
//! against circle center, both exact on integer coordinates.

use vstd::prelude::*;

use crate::consts;
use crate::geom;
use crate::geom::Vec2i;

verus! {

/// Two circles touch when the squared distance between their centers is
/// at most the square of the sum of their radii.
pub open spec fn spec_circles_collide(c1: Vec2i, r1: int, c2: Vec2i, r2: int) -> bool {
    geom::spec_dist_sq(c1, c2) <= (r1 + r2) * (r1 + r2)
}

pub fn circles_collide(c1: Vec2i, r1: i64, c2: Vec2i, r2: i64) -> (hit: bool)
    requires
        c1.in_pos_band(),
        c2.in_pos_band(),
        0 <= r1 <= consts::POS_LIMIT,
        0 <= r2 <= consts::POS_LIMIT,
    ensures
        hit == spec_circles_collide(c1, r1 as int, c2, r2 as int),
{
    let d2: i128 = geom::dist_sq(c1, c2);
    let rsum: i128 = r1 as i128 + r2 as i128;
    proof {
        assert(0 <= rsum as int * rsum as int
            <= 0x10_0000_0000_0000_0000_0000) by (nonlinear_arith)
            requires
                0 <= rsum as int <= 0x200_0000_0000,
        ;
    }
    d2 <= rsum * rsum
}

/// The circle center `cc`, translated into the frame of a rectangle
/// centered at `rc` and rotated so that `rot` (a direction in
/// milli-units) is its local x axis, lies within the half-extents.
/// The transformed coordinates carry the factor 1000 from `rot`.
pub open spec fn spec_rect_circle_collide(
    rc: Vec2i,
    half_w: int,
    half_h: int,
    rot: Vec2i,
    cc: Vec2i,
) -> bool {
    let dx = cc.x - rc.x;
    let dy = cc.y - rc.y;
    let tx = dx * rot.x + dy * rot.y;
    let ty = dy * rot.x - dx * rot.y;
    &&& -(half_w * 1000) <= tx <= half_w * 1000
    &&& -(half_h * 1000) <= ty <= half_h * 1000
}

pub fn rectangle_circle_collide(
    rc: Vec2i,
    half_w: i64,
    half_h: i64,
    rot: Vec2i,
    cc: Vec2i,
) -> (hit: bool)
    requires
        rc.in_pos_band(),
        cc.in_pos_band(),
        0 <= half_w <= consts::POS_LIMIT,
        0 <= half_h <= consts::POS_LIMIT,
        -2000 <= rot.x <= 2000,
        -2000 <= rot.y <= 2000,
    ensures
        hit == spec_rect_circle_collide(rc, half_w as int, half_h as int, rot, cc),
{
    let dx: i64 = cc.x - rc.x;
    let dy: i64 = cc.y - rc.y;
    proof {
        lemma_rot_products(dx as int, dy as int, rot.x as int, rot.y as int);
    }
    let tx: i128 = (dx as i128) * (rot.x as i128) + (dy as i128) * (rot.y as i128);
    let ty: i128 = (dy as i128) * (rot.x as i128) - (dx as i128) * (rot.y as i128);
    let wb: i128 = (half_w as i128) * 1000;
    let hb: i128 = (half_h as i128) * 1000;
    -wb <= tx && tx <= wb && -hb <= ty && ty <= hb
}

/// Bounds for the products of a coordinate difference with a direction
/// component.
proof fn lemma_rot_products(dx: int, dy: int, rx: int, ry: int)
    requires
        -0x200_0000_0000 <= dx <= 0x200_0000_0000,
        -0x200_0000_0000 <= dy <= 0x200_0000_0000,
        -2000 <= rx <= 2000,
        -2000 <= ry <= 2000,
    ensures
        -0x10_0000_0000_0000 <= dx * rx <= 0x10_0000_0000_0000,
        -0x10_0000_0000_0000 <= dx * ry <= 0x10_0000_0000_0000,
        -0x10_0000_0000_0000 <= dy * rx <= 0x10_0000_0000_0000,
        -0x10_0000_0000_0000 <= dy * ry <= 0x10_0000_0000_0000,
{
    assert(-0x10_0000_0000_0000 <= dx * rx <= 0x10_0000_0000_0000
        && -0x10_0000_0000_0000 <= dx * ry <= 0x10_0000_0000_0000
        && -0x10_0000_0000_0000 <= dy * rx <= 0x10_0000_0000_0000
        && -0x10_0000_0000_0000 <= dy * ry <= 0x10_0000_0000_0000) by (nonlinear_arith)
        requires
            -0x200_0000_0000 <= dx <= 0x200_0000_0000,
            -0x200_0000_0000 <= dy <= 0x200_0000_0000,
            -2000 <= rx <= 2000,
            -2000 <= ry <= 2000,
    ;
}

} // verus!
