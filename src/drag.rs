use vstd::prelude::*;

use crate::geometry::Point;
use crate::resources::{DragView, MouseMovementSequence};

verus! {

/// Sum of the horizontal displacements of `samples` from `start`.
pub open spec fn disp_sum_x(start: Point, samples: Seq<Point>) -> int
    decreases samples.len(),
{
    if samples.len() == 0 {
        0
    } else {
        disp_sum_x(start, samples.drop_last()) + (samples.last().x - start.x)
    }
}

/// Sum of the vertical displacements of `samples` from `start`.
pub open spec fn disp_sum_y(start: Point, samples: Seq<Point>) -> int
    decreases samples.len(),
{
    if samples.len() == 0 {
        0
    } else {
        disp_sum_y(start, samples.drop_last()) + (samples.last().y - start.y)
    }
}

/// The gesture gives no impulse when it has no samples or its mean
/// displacement is the zero vector (whose length has no logarithm).
pub open spec fn impulse_is_zero(start: Point, samples: Seq<Point>) -> bool {
    samples.len() == 0 || (disp_sum_x(start, samples) == 0 && disp_sum_y(start, samples) == 0)
}

/// The impulse of a gesture. `Scaled` stands for the vector
/// `m * log2(|m|)`, where `m = (sum_x, sum_y) / count` is the mean
/// displacement of the samples from the start point.
#[derive(Clone, Copy, Debug, PartialEq, Eq, Structural)]
pub enum ImpulseVector {
    Zero,
    Scaled { sum_x: i128, sum_y: i128, count: u64 },
}

/// The torque impulse applied with every released gesture, in thousandths.
pub const RELEASE_TORQUE_MILLI: u32 = 14_000;

/// `r` is the impulse of the gesture from `start` through `samples`.
pub open spec fn is_impulse_of(r: ImpulseVector, start: Point, samples: Seq<Point>) -> bool {
    match r {
        ImpulseVector::Zero => impulse_is_zero(start, samples),
        ImpulseVector::Scaled { sum_x, sum_y, count } => {
            &&& !impulse_is_zero(start, samples)
            &&& sum_x == disp_sum_x(start, samples)
            &&& sum_y == disp_sum_y(start, samples)
            &&& count == samples.len()
        },
    }
}

/// The impulse of the gesture that started at `start` and was sampled at
/// `samples`.
pub fn calc_impulse_vector(start: Point, samples: &Vec<Point>) -> (r: ImpulseVector)
    ensures
        is_impulse_of(r, start, samples@),
{
    let n = samples.len();
    let mut sum_x: i128 = 0;
    let mut sum_y: i128 = 0;
    let mut i: usize = 0;
    while i < n
        invariant
            n == samples@.len(),
            0 <= i <= n,
            sum_x == disp_sum_x(start, samples@.take(i as int)),
            sum_y == disp_sum_y(start, samples@.take(i as int)),
            -(i as int) * 0x1_0000_0000 <= sum_x <= (i as int) * 0x1_0000_0000,
            -(i as int) * 0x1_0000_0000 <= sum_y <= (i as int) * 0x1_0000_0000,
        decreases n - i,
    {
        let p = samples[i];
        proof {
            let next = samples@.take(i + 1);
            assert(next.drop_last() =~= samples@.take(i as int));
            assert(next.last() == p);
        }
        sum_x = sum_x + ((p.x as i64 - start.x as i64) as i128);
        sum_y = sum_y + ((p.y as i64 - start.y as i64) as i128);
        i = i + 1;
    }
    assert(samples@.take(n as int) =~= samples@);
    if n == 0 || (sum_x == 0 && sum_y == 0) {
        ImpulseVector::Zero
    } else {
        ImpulseVector::Scaled { sum_x, sum_y, count: n as u64 }
    }
}

/// Each sample adds its own displacement to the sums: the impulse's mean
/// displacement is linear in the samples' displacements.
pub proof fn lemma_displacement_additive(start: Point, a: Seq<Point>, b: Seq<Point>)
    ensures
        disp_sum_x(start, a + b) == disp_sum_x(start, a) + disp_sum_x(start, b),
        disp_sum_y(start, a + b) == disp_sum_y(start, a) + disp_sum_y(start, b),
    decreases b.len(),
{
    if b.len() == 0 {
        assert(a + b =~= a);
    } else {
        lemma_displacement_additive(start, a, b.drop_last());
        assert((a + b).drop_last() =~= a + b.drop_last());
    }
}

/// A gesture whose only sample is its start point gives no impulse.
pub proof fn lemma_still_gesture_is_zero(start: Point)
    ensures
        impulse_is_zero(start, seq![start]),
{
    let s = seq![start];
    assert(s.drop_last() =~= Seq::<Point>::empty());
    assert(s.last() == start);
    assert(disp_sum_x(start, s) == disp_sum_x(start, s.drop_last()) + 0);
    assert(disp_sum_y(start, s) == disp_sum_y(start, s.drop_last()) + 0);
}

/// Gestures with as many samples and the same displacement sums give the
/// same impulse: the scaling depends on the mean displacement alone.
pub proof fn lemma_impulse_depends_on_mean(
    start: Point,
    a: Seq<Point>,
    b: Seq<Point>,
    r: ImpulseVector,
)
    requires
        a.len() == b.len(),
        disp_sum_x(start, a) == disp_sum_x(start, b),
        disp_sum_y(start, a) == disp_sum_y(start, b),
        is_impulse_of(r, start, a),
    ensures
        is_impulse_of(r, start, b),
{
}

/// The samples' order does not matter: gestures whose samples are the same
/// points, in any order, have the same displacement sums and the same
/// impulse.
pub proof fn lemma_impulse_ignores_order(
    start: Point,
    a: Seq<Point>,
    b: Seq<Point>,
    r: ImpulseVector,
)
    requires
        a.to_multiset() =~= b.to_multiset(),
        is_impulse_of(r, start, a),
    ensures
        a.len() == b.len(),
        disp_sum_x(start, a) == disp_sum_x(start, b),
        disp_sum_y(start, a) == disp_sum_y(start, b),
        is_impulse_of(r, start, b),
{
    lemma_displacement_permutation(start, a, b);
}

proof fn lemma_displacement_permutation(start: Point, a: Seq<Point>, b: Seq<Point>)
    requires
        a.to_multiset() =~= b.to_multiset(),
    ensures
        a.len() == b.len(),
        disp_sum_x(start, a) == disp_sum_x(start, b),
        disp_sum_y(start, a) == disp_sum_y(start, b),
    decreases a.len(),
{
    a.to_multiset_ensures();
    b.to_multiset_ensures();
    if a.len() > 0 {
        let x = a.last();
        let a2 = a.drop_last();
        a2.to_multiset_ensures();
        assert(a2.push(x) =~= a);
        assert(a.to_multiset().count(x) > 0);
        assert(b.contains(x));
        let j = choose|j: int| 0 <= j < b.len() && b[j] == x;
        let b2 = b.remove(j);
        assert(a2.to_multiset() =~= b2.to_multiset());
        lemma_displacement_permutation(start, a2, b2);
        let pre = b.take(j);
        let post = b.skip(j + 1);
        assert(b =~= pre + (seq![x] + post));
        assert(b2 =~= pre + post);
        lemma_displacement_additive(start, pre, seq![x] + post);
        lemma_displacement_additive(start, seq![x], post);
        lemma_displacement_additive(start, pre, post);
        assert(seq![x].drop_last() =~= Seq::<Point>::empty());
        assert(seq![x].last() == x);
        assert(disp_sum_x(start, seq![x]) == disp_sum_x(start, Seq::<Point>::empty()) + (x.x - start.x));
        assert(disp_sum_y(start, seq![x]) == disp_sum_y(start, Seq::<Point>::empty()) + (x.y - start.y));
        assert(disp_sum_x(start, a) == disp_sum_x(start, a2) + (x.x - start.x));
        assert(disp_sum_y(start, a) == disp_sum_y(start, a2) + (x.y - start.y));
    }
}

/// `a` written out `k` times in a row.
pub open spec fn repeated(a: Seq<Point>, k: nat) -> Seq<Point>
    decreases k,
{
    if k == 0 { Seq::empty() } else { repeated(a, (k - 1) as nat) + a }
}

/// Two impulses stand for the same vector: both zero, or both scaled with the
/// same mean displacement.
pub open spec fn same_impulse(p: ImpulseVector, q: ImpulseVector) -> bool {
    match (p, q) {
        (ImpulseVector::Zero, ImpulseVector::Zero) => true,
        (
            ImpulseVector::Scaled { sum_x: x1, sum_y: y1, count: c1 },
            ImpulseVector::Scaled { sum_x: x2, sum_y: y2, count: c2 },
        ) => x1 * c2 == x2 * c1 && y1 * c2 == y2 * c1,
        _ => false,
    }
}

/// Repeating a gesture's samples does not change its mean displacement, so
/// the impulse stands for the same vector.
pub proof fn lemma_impulse_ignores_repetition(
    start: Point,
    a: Seq<Point>,
    k: nat,
    p: ImpulseVector,
    q: ImpulseVector,
)
    requires
        k >= 1,
        is_impulse_of(p, start, a),
        is_impulse_of(q, start, repeated(a, k)),
    ensures
        same_impulse(p, q),
{
    lemma_displacement_repeated(start, a, k);
    let sx = disp_sum_x(start, a);
    let sy = disp_sum_y(start, a);
    let n = a.len() as int;
    let kk = k as int;
    if n > 0 && (sx != 0 || sy != 0) {
        assert(kk * sx != 0 || kk * sy != 0) by (nonlinear_arith)
            requires kk >= 1, sx != 0 || sy != 0;
        assert(sx * (kk * n) == (kk * sx) * n) by (nonlinear_arith);
        assert(sy * (kk * n) == (kk * sy) * n) by (nonlinear_arith);
    } else if n > 0 {
        assert(kk * sx == 0 && kk * sy == 0) by (nonlinear_arith)
            requires sx == 0, sy == 0;
    } else {
        assert(kk * n == 0) by (nonlinear_arith)
            requires n == 0;
    }
}

proof fn lemma_displacement_repeated(start: Point, a: Seq<Point>, k: nat)
    ensures
        repeated(a, k).len() == k * a.len(),
        disp_sum_x(start, repeated(a, k)) == k * disp_sum_x(start, a),
        disp_sum_y(start, repeated(a, k)) == k * disp_sum_y(start, a),
    decreases k,
{
    if k == 0 {
        let dx = disp_sum_x(start, a);
        let dy = disp_sum_y(start, a);
        let n = a.len() as int;
        assert(0 * dx == 0 && 0 * dy == 0 && 0 * n == 0) by (nonlinear_arith);
    } else {
        lemma_displacement_repeated(start, a, (k - 1) as nat);
        lemma_displacement_additive(start, repeated(a, (k - 1) as nat), a);
        let j = (k - 1) as int;
        assert(j * a.len() + a.len() == k * a.len()) by (nonlinear_arith)
            requires j == k - 1;
        assert(j * disp_sum_x(start, a) + disp_sum_x(start, a) == k * disp_sum_x(start, a))
            by (nonlinear_arith)
            requires j == k - 1;
        assert(j * disp_sum_y(start, a) + disp_sum_y(start, a) == k * disp_sum_y(start, a))
            by (nonlinear_arith)
            requires j == k - 1;
    }
}

/// Gesture detection: when nothing is dragged, the button is held and the
/// cursor maps to the world point `cursor`, the first entity of `hits` (the
/// draggable entities under the cursor, in the physics query's order) starts
/// being dragged from that point. Otherwise nothing changes.
pub fn detect_drag_ingredients(
    mouse_movement_sequence: &mut MouseMovementSequence,
    pressed: bool,
    cursor: Option<Point>,
    hits: &Vec<u64>,
)
    requires
        old(mouse_movement_sequence)@.consistent(),
    ensures
        final(mouse_movement_sequence)@.consistent(),
        ({
            let s = old(mouse_movement_sequence)@;
            if s.entity.is_none() && pressed && cursor.is_some() && hits@.len() > 0 {
                final(mouse_movement_sequence)@ == (DragView {
                    starting_position: cursor,
                    samples: Seq::empty(),
                    entity: Some(hits@[0]),
                })
            } else {
                final(mouse_movement_sequence)@ == s
            }
        }),
{
    if mouse_movement_sequence.entity().is_some() || !pressed {
        return;
    }
    match cursor {
        Some(point) => {
            if hits.len() > 0 {
                mouse_movement_sequence.begin(hits[0], point);
            }
        },
        None => {},
    }
}

/// What a tick of the gesture translator asks of the world.
#[derive(Clone, Copy, Debug, PartialEq, Eq, Structural)]
pub enum DragStep {
    /// Nothing to do this tick.
    Idle,
    /// The gesture goes on: show the arrow from `start` along `impulse`.
    Aim { start: Point, impulse: ImpulseVector },
    /// The button was let go: show the arrow once more, and apply `impulse`
    /// and the fixed torque to `entity`.
    Release { entity: u64, start: Point, impulse: ImpulseVector },
}

/// Gesture translation, one tick. Without a dragged entity or a cursor
/// position nothing happens. Otherwise the cursor is sampled and the impulse
/// of the samples so far computed; while the button is held the gesture goes
/// on, and once it is let go the impulse is handed out and the tracker cleared.
pub fn handle_drag_ingredients(
    mouse_movement_sequence: &mut MouseMovementSequence,
    cursor: Option<Point>,
    pressed: bool,
) -> (r: DragStep)
    requires
        old(mouse_movement_sequence)@.consistent(),
    ensures
        final(mouse_movement_sequence)@.consistent(),
        ({
            let s = old(mouse_movement_sequence)@;
            if s.entity.is_none() || cursor.is_none() {
                r == DragStep::Idle && final(mouse_movement_sequence)@ == s
            } else {
                let samples = s.samples.push(cursor.unwrap());
                let start = s.starting_position.unwrap();
                if pressed {
                    &&& final(mouse_movement_sequence)@ == (DragView { samples, ..s })
                    &&& r matches DragStep::Aim { start: a, impulse }
                    &&& a == start
                    &&& is_impulse_of(impulse, start, samples)
                } else {
                    &&& final(mouse_movement_sequence)@ == DragView::idle()
                    &&& r matches DragStep::Release { entity, start: a, impulse }
                    &&& entity == s.entity.unwrap()
                    &&& a == start
                    &&& is_impulse_of(impulse, start, samples)
                }
            }
        }),
{
    let entity = match mouse_movement_sequence.entity() {
        Some(e) => e,
        None => {
            return DragStep::Idle;
        },
    };
    let point = match cursor {
        Some(p) => p,
        None => {
            return DragStep::Idle;
        },
    };
    let start = match mouse_movement_sequence.starting_position() {
        Some(p) => p,
        None => {
            return DragStep::Idle;
        },
    };
    mouse_movement_sequence.push_sample(point);
    let impulse = calc_impulse_vector(start, mouse_movement_sequence.samples());
    if pressed {
        DragStep::Aim { start, impulse }
    } else {
        mouse_movement_sequence.reset();
        DragStep::Release { entity, start, impulse }
    }
}

} // verus!
