use vstd::prelude::*;

verus! {

/// A point of the world plane, in whole world units.
#[derive(Clone, Copy, Debug, PartialEq, Eq, Structural)]
pub struct Point {
    pub x: i32,
    pub y: i32,
}

impl Point {
    pub fn new(x: i32, y: i32) -> (r: Point)
        ensures
            r.x == x,
            r.y == y,
    {
        Point { x, y }
    }
}

/// A position in thousandths of a unit.
#[derive(Clone, Copy, Debug, PartialEq, Eq, Structural)]
pub struct MilliPoint {
    pub x: i64,
    pub y: i64,
}

impl MilliPoint {
    pub fn new(x: i64, y: i64) -> (r: MilliPoint)
        ensures
            r.x == x,
            r.y == y,
    {
        MilliPoint { x, y }
    }
}

/// `v` moved into `[lo, hi]`; when `lo > hi` the lower bound wins.
pub open spec fn clamp_spec(v: int, lo: int, hi: int) -> int {
    if v > hi {
        if lo > hi { lo } else { hi }
    } else if v < lo {
        lo
    } else {
        v
    }
}

/// Squared distance from `(cx, cy)` to the closest point of the box.
pub open spec fn box_sq_dist(
    xmin: int,
    xmax: int,
    ymin: int,
    ymax: int,
    cx: int,
    cy: int,
) -> int {
    let dx = clamp_spec(cx, xmin, xmax) - cx;
    let dy = clamp_spec(cy, ymin, ymax) - cy;
    dx * dx + dy * dy
}

/// A sphere meets the box when its center lies strictly closer than its radius
/// to the box's closest point; touching spheres do not meet it.
pub open spec fn intersects_spec(
    xmin: int,
    xmax: int,
    ymin: int,
    ymax: int,
    cx: int,
    cy: int,
    r: int,
) -> bool {
    box_sq_dist(xmin, xmax, ymin, ymax, cx, cy) < r * r
}

fn clamp_i64(v: i64, lo: i64, hi: i64) -> (r: i64)
    ensures
        r == clamp_spec(v as int, lo as int, hi as int),
{
    if v > hi {
        if lo > hi { lo } else { hi }
    } else if v < lo {
        lo
    } else {
        v
    }
}

/// Whether the sphere at `sphere_position` with radius `sphere_radius` meets
/// the box `[box_xmin, box_xmax] x [box_ymin, box_ymax]`, all in the same unit.
pub fn box_intersects_sphere(
    box_xmin: i64,
    box_xmax: i64,
    box_ymin: i64,
    box_ymax: i64,
    sphere_position: MilliPoint,
    sphere_radius: u32,
) -> (r: bool)
    ensures
        r == intersects_spec(
            box_xmin as int,
            box_xmax as int,
            box_ymin as int,
            box_ymax as int,
            sphere_position.x as int,
            sphere_position.y as int,
            sphere_radius as int,
        ),
{
    let cx = sphere_position.x as i128;
    let cy = sphere_position.y as i128;
    let x = clamp_i64(sphere_position.x, box_xmin, box_xmax) as i128;
    let y = clamp_i64(sphere_position.y, box_ymin, box_ymax) as i128;
    let dx: i128 = x - cx;
    let dy: i128 = y - cy;
    let r = sphere_radius as i128;
    // An axis alone at the radius or beyond keeps the sphere off the box.
    if dx >= r || dx <= -r || dy >= r || dy <= -r {
        assert(dx * dx + dy * dy >= r * r) by (nonlinear_arith)
            requires
                r >= 0,
                dx >= r || dx <= -r || dy >= r || dy <= -r,
        ;
        return false;
    }
    assert(0 <= dx * dx <= 0x1_0000_0000_0000_0000) by (nonlinear_arith)
        requires -0x1_0000_0000 <= dx <= 0x1_0000_0000;
    assert(0 <= dy * dy <= 0x1_0000_0000_0000_0000) by (nonlinear_arith)
        requires -0x1_0000_0000 <= dy <= 0x1_0000_0000;
    assert(0 <= r * r <= 0x1_0000_0000_0000_0000) by (nonlinear_arith)
        requires 0 <= r <= 0x1_0000_0000;
    dx * dx + dy * dy < r * r
}

} // verus!
