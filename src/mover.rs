use vstd::prelude::*;

use crate::geometry::{clamp_spec, MilliPoint};

verus! {

/// Side of the square cauldron, in thousandths of a world unit.
pub const CAULDRON_SIZE_MILLI: i64 = 150_000;

/// How far above its lowest position the cauldron may be lifted, in
/// thousandths of a world unit.
pub const CAULDRON_LIFT_MILLI: i64 = 120_000;

/// Seventy percent of `d`, rounded toward zero: the share of the remaining
/// distance that the cauldron covers in one tick.
pub open spec fn follow_step(d: int) -> int {
    if d >= 0 { d * 7 / 10 } else { -((-d) * 7 / 10) }
}

/// The cursor at window position `c`, for a window `w` by `h` whole units,
/// as a world point kept where the cauldron may stand.
pub open spec fn cauldron_target(w: u32, h: u32, c: MilliPoint) -> (int, int) {
    let hw = w as int * 500;
    let hh = h as int * 500;
    let half = CAULDRON_SIZE_MILLI as int / 2;
    (
        clamp_spec(c.x - hw, half - hw, hw - half),
        clamp_spec(hh - c.y, half - hh, half - hh + CAULDRON_LIFT_MILLI),
    )
}

/// The cauldron centered at `p` covers the world point `t`.
pub open spec fn cauldron_covers(p: MilliPoint, t: (int, int)) -> bool {
    let half = CAULDRON_SIZE_MILLI as int / 2;
    &&& p.x - half <= t.0 <= p.x + half
    &&& p.y - half <= t.1 <= p.y + half
}

/// Where the cauldron at `p` stands after one tick.
pub open spec fn moved_cauldron(
    p: MilliPoint,
    pressed: bool,
    w: u32,
    h: u32,
    cursor: Option<MilliPoint>,
) -> MilliPoint {
    if pressed && cursor.is_some() && cauldron_covers(p, cauldron_target(w, h, cursor.unwrap())) {
        let t = cauldron_target(w, h, cursor.unwrap());
        MilliPoint {
            x: (p.x + follow_step(t.0 - p.x)) as i64,
            y: (p.y + follow_step(t.1 - p.y)) as i64,
        }
    } else {
        p
    }
}

/// A step covers seventy percent of the distance `d` to within one
/// thousandth, exactly so when `d` is a multiple of ten thousandths, and never
/// reaches the target from a nonzero distance: three tenths of the distance
/// remain.
pub proof fn lemma_follow_step_seventy_percent(d: int)
    ensures
        d >= 0 ==> 7 * d - 10 < 10 * follow_step(d) <= 7 * d,
        d < 0 ==> 7 * d <= 10 * follow_step(d) < 7 * d + 10,
        d % 10 == 0 ==> 10 * follow_step(d) == 7 * d,
        d % 10 == 0 ==> 10 * (d - follow_step(d)) == 3 * d,
        d != 0 ==> follow_step(d) != d,
{
    if d >= 0 {
        assert(7 * d - 10 < 10 * (d * 7 / 10) <= 7 * d) by (nonlinear_arith)
            requires d >= 0;
        assert(d % 10 == 0 ==> 10 * (d * 7 / 10) == 7 * d) by (nonlinear_arith)
            requires d >= 0;
    } else {
        let e = -d;
        assert(7 * e - 10 < 10 * (e * 7 / 10) <= 7 * e) by (nonlinear_arith)
            requires e > 0;
        assert(e % 10 == 0 ==> 10 * (e * 7 / 10) == 7 * e) by (nonlinear_arith)
            requires e > 0;
        assert(d % 10 == 0 ==> e % 10 == 0) by (nonlinear_arith)
            requires e == -d;
    }
}

fn clamp_wide(v: i128, lo: i128, hi: i128) -> (r: i128)
    ensures
        r == clamp_spec(v as int, lo as int, hi as int),
{
    if v > hi {
        if lo > hi { lo } else { hi }
    } else if v < lo {
        lo
    } else {
        v
    }
}

fn step_toward(from: i64, to: i128) -> (r: i64)
    requires
        i64::MIN <= to <= i64::MAX,
    ensures
        r == from + follow_step(to - from),
{
    let d: i128 = to - from as i128;
    if d >= 0 {
        assert(0 <= d * 7 / 10 <= d) by (nonlinear_arith)
            requires d >= 0;
        (from as i128 + d * 7 / 10) as i64
    } else {
        let e: i128 = -d;
        assert(0 <= e * 7 / 10 <= e) by (nonlinear_arith)
            requires e >= 0;
        (from as i128 - e * 7 / 10) as i64
    }
}

/// Cauldron follow: while the button is held and the cursor, kept within the
/// cauldron's range of motion, lies within the cauldron's square, the cauldron
/// moves seventy percent of the way toward that point. Positions are in
/// thousandths of a unit, `cursor` in window coordinates (origin top left,
/// y down); the window is `window_width` by `window_height` whole units.
pub fn move_cauldron(
    cauldron: &mut MilliPoint,
    pressed: bool,
    window_width: u32,
    window_height: u32,
    cursor: Option<MilliPoint>,
)
    ensures
        *final(cauldron) == moved_cauldron(*old(cauldron), pressed, window_width, window_height, cursor),
{
    if !pressed {
        return;
    }
    let c = match cursor {
        Some(c) => c,
        None => {
            return;
        },
    };
    let hw: i128 = window_width as i128 * 500;
    let hh: i128 = window_height as i128 * 500;
    let half: i128 = (CAULDRON_SIZE_MILLI / 2) as i128;
    let x = clamp_wide(c.x as i128 - hw, half - hw, hw - half);
    let y = clamp_wide(hh - c.y as i128, half - hh, half - hh + CAULDRON_LIFT_MILLI as i128);
    let px = cauldron.x as i128;
    let py = cauldron.y as i128;
    if px - half <= x && x <= px + half && py - half <= y && y <= py + half {
        let nx = step_toward(cauldron.x, x);
        let ny = step_toward(cauldron.y, y);
        *cauldron = MilliPoint { x: nx, y: ny };
    }
}

} // verus!
