use vstd::prelude::*;

use crate::geometry::{box_intersects_sphere, intersects_spec, MilliPoint};
use crate::resources::{DragView, MouseMovementSequence};

verus! {

/// A falling ingredient as the sweeper sees it: its entity, the center of its
/// ball collider and the ball's radius, in thousandths of a world unit.
#[derive(Clone, Copy, Debug, PartialEq, Eq, Structural)]
pub struct IngredientBody {
    pub entity: u64,
    pub position: MilliPoint,
    pub radius_milli: u32,
}

/// Half the width of a window `window_width` whole units wide, in thousandths.
pub open spec fn half_width_milli(window_width: u32) -> int {
    window_width as int * 500
}

/// The ball has left the horizontal span `[-w/2, w/2]` of a window `w` whole
/// units wide; the vertical span is unbounded.
pub open spec fn is_outside(window_width: u32, b: IngredientBody) -> bool {
    let half = half_width_milli(window_width);
    !intersects_spec(
        -half,
        half,
        i64::MIN as int,
        i64::MAX as int,
        b.position.x as int,
        b.position.y as int,
        b.radius_milli as int,
    )
}

/// The entities of `bodies` that have left the window, in order.
pub open spec fn outside_entities(window_width: u32, bodies: Seq<IngredientBody>) -> Seq<u64>
    decreases bodies.len(),
{
    if bodies.len() == 0 {
        Seq::empty()
    } else {
        let rest = outside_entities(window_width, bodies.drop_last());
        if is_outside(window_width, bodies.last()) {
            rest.push(bodies.last().entity)
        } else {
            rest
        }
    }
}

/// What a collision with the cauldron's sensor reports.
#[derive(Clone, Copy, Debug, PartialEq, Eq, Structural)]
pub enum CollisionEvent {
    Started(u64, u64),
    Stopped(u64, u64),
}

/// The entity that a started collision between `a` and `b` brings into the
/// cauldron `cauldron`: the member that is not the cauldron. A collision that
/// does not involve the cauldron, or of the cauldron with itself, brings none.
pub open spec fn entered_entity(cauldron: u64, a: u64, b: u64) -> Option<u64> {
    if a == cauldron && b != cauldron {
        Some(b)
    } else if b == cauldron && a != cauldron {
        Some(a)
    } else {
        None
    }
}

/// The entities that started collisions of `events` bring into the cauldron,
/// in order; ended collisions bring none.
pub open spec fn started_others(cauldron: u64, events: Seq<CollisionEvent>) -> Seq<u64>
    decreases events.len(),
{
    if events.len() == 0 {
        Seq::empty()
    } else {
        let rest = started_others(cauldron, events.drop_last());
        match events.last() {
            CollisionEvent::Started(a, b) => match entered_entity(cauldron, a, b) {
                Some(other) => rest.push(other),
                None => rest,
            },
            CollisionEvent::Stopped(_, _) => rest,
        }
    }
}

proof fn lemma_forget_step(s: DragView, gone: Seq<u64>, e: u64)
    ensures
        s.forget_all(gone).forget(e) == s.forget_all(gone.push(e)),
{
    assert(forall|x: u64| gone.push(e).contains(x) <==> (gone.contains(x) || x == e)) by {
        assert forall|x: u64| gone.push(e).contains(x) implies (gone.contains(x) || x == e) by {
            let k = choose|k: int| 0 <= k < gone.push(e).len() && gone.push(e)[k] == x;
            if k < gone.len() {
                assert(gone[k] == x);
            }
        }
        assert forall|x: u64| (gone.contains(x) || x == e) implies gone.push(e).contains(x) by {
            if x == e {
                assert(gone.push(e)[gone.len() as int] == e);
            } else {
                let k = choose|k: int| 0 <= k < gone.len() && gone[k] == x;
                assert(gone.push(e)[k] == x);
            }
        }
    }
}

/// Boundary sweep: every ingredient whose ball has left the window's
/// horizontal span is despawned (the result lists them, in order), and the
/// tracker is cleared when one of them was being dragged.
pub fn handle_outside_ingredients(
    mouse_movement_sequence: &mut MouseMovementSequence,
    window_width: u32,
    ingredients: &Vec<IngredientBody>,
) -> (r: Vec<u64>)
    requires
        old(mouse_movement_sequence)@.consistent(),
    ensures
        final(mouse_movement_sequence)@.consistent(),
        r@ == outside_entities(window_width, ingredients@),
        final(mouse_movement_sequence)@ == old(mouse_movement_sequence)@.forget_all(r@),
{
    let half: i64 = window_width as i64 * 500;
    let mut gone: Vec<u64> = Vec::new();
    let mut i: usize = 0;
    while i < ingredients.len()
        invariant
            0 <= i <= ingredients@.len(),
            half as int == half_width_milli(window_width),
            gone@ == outside_entities(window_width, ingredients@.take(i as int)),
            mouse_movement_sequence@ == old(mouse_movement_sequence)@.forget_all(gone@),
            mouse_movement_sequence@.consistent(),
        decreases ingredients@.len() - i,
    {
        let body = ingredients[i];
        proof {
            let next = ingredients@.take(i + 1);
            assert(next.drop_last() =~= ingredients@.take(i as int));
            assert(next.last() == body);
        }
        if !box_intersects_sphere(
            -half,
            half,
            i64::MIN,
            i64::MAX,
            body.position,
            body.radius_milli,
        ) {
            proof {
                lemma_forget_step(old(mouse_movement_sequence)@, gone@, body.entity);
            }
            mouse_movement_sequence.forget_entity(body.entity);
            gone.push(body.entity);
        }
        i = i + 1;
    }
    assert(ingredients@.take(i as int) =~= ingredients@);
    gone
}

/// Cauldron collisions: for every started collision of the cauldron
/// `cauldron` with another entity, that other entity is despawned (the result
/// lists them, in order), and the tracker is cleared when one of them was
/// being dragged. The cauldron itself is never despawned; ended collisions and
/// collisions without the cauldron are ignored.
pub fn collision_cauldron(
    mouse_movement_sequence: &mut MouseMovementSequence,
    cauldron: u64,
    collision_events: &Vec<CollisionEvent>,
) -> (r: Vec<u64>)
    requires
        old(mouse_movement_sequence)@.consistent(),
    ensures
        final(mouse_movement_sequence)@.consistent(),
        r@ == started_others(cauldron, collision_events@),
        !r@.contains(cauldron),
        final(mouse_movement_sequence)@ == old(mouse_movement_sequence)@.forget_all(r@),
{
    let mut gone: Vec<u64> = Vec::new();
    let mut i: usize = 0;
    while i < collision_events.len()
        invariant
            0 <= i <= collision_events@.len(),
            gone@ == started_others(cauldron, collision_events@.take(i as int)),
            !gone@.contains(cauldron),
            mouse_movement_sequence@ == old(mouse_movement_sequence)@.forget_all(gone@),
            mouse_movement_sequence@.consistent(),
        decreases collision_events@.len() - i,
    {
        let event = collision_events[i];
        proof {
            let next = collision_events@.take(i + 1);
            assert(next.drop_last() =~= collision_events@.take(i as int));
            assert(next.last() == event);
        }
        match event {
            CollisionEvent::Started(a, b) => {
                let entered = if a == cauldron && b != cauldron {
                    Some(b)
                } else if b == cauldron && a != cauldron {
                    Some(a)
                } else {
                    None
                };
                match entered {
                    Some(other) => {
                        proof {
                            lemma_forget_step(old(mouse_movement_sequence)@, gone@, other);
                            assert(!gone@.push(other).contains(cauldron)) by {
                                if gone@.push(other).contains(cauldron) {
                                    let k = choose|k: int|
                                        0 <= k < gone@.push(other).len() && gone@.push(other)[k]
                                            == cauldron;
                                    if k < gone@.len() {
                                        assert(gone@.contains(cauldron));
                                    }
                                }
                            }
                        }
                        mouse_movement_sequence.forget_entity(other);
                        gone.push(other);
                    },
                    None => {},
                }
            },
            CollisionEvent::Stopped(_, _) => {},
        }
        i = i + 1;
    }
    assert(collision_events@.take(i as int) =~= collision_events@);
    gone
}

/// A ball that just touches either vertical edge of the window from outside
/// (its distance to the span equals its radius) counts as outside.
pub proof fn lemma_tangent_is_outside(window_width: u32, b: IngredientBody)
    requires
        b.position.x == half_width_milli(window_width) + b.radius_milli
            || b.position.x == -half_width_milli(window_width) - b.radius_milli,
    ensures
        is_outside(window_width, b),
{
    let r = b.radius_milli as int;
    assert((-r) * (-r) == r * r) by (nonlinear_arith);
}

} // verus!
