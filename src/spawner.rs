use vstd::prelude::*;

use crate::components::{Ingredient, MAX_INGREDIENT_ID};
use crate::geometry::Point;
use crate::random::random_in;
use crate::resources::{timer_elapsed_after, timer_fires, SpawnIngredientTimer};

verus! {

/// Sizes are drawn in thousandths, from `[0, SIZE_STEPS)`.
pub const SIZE_STEPS: u32 = 1000;

/// Where new ingredients appear, before the horizontal jitter.
pub const SPAWN_X: i32 = -200;
pub const SPAWN_Y: i32 = 580;

/// The horizontal jitter is drawn from `[-SPAWN_JITTER, SPAWN_JITTER)`.
pub const SPAWN_JITTER: i32 = 20;

/// A new falling ingredient. Mass, radius and restitution are in thousandths
/// of their units.
#[derive(Clone, Copy, Debug, PartialEq, Eq, Structural)]
pub struct IngredientSpawn {
    pub size_milli: u32,
    pub mass_milli: u32,
    pub radius_milli: u32,
    pub restitution_milli: u32,
    pub position: Point,
    pub ingredient: Ingredient,
}

/// The body of an ingredient of size `size_milli / 1000`, spawned `jitter`
/// units right of the spawn point: mass `size * 4 + 0.2`, radius
/// `20 + size * 40`, restitution `max(0.8 - size, 0)`.
pub open spec fn spawn_body(s: IngredientSpawn, size_milli: int, jitter: int) -> bool {
    &&& s.size_milli == size_milli
    &&& s.mass_milli == size_milli * 4 + 200
    &&& s.radius_milli == 20_000 + size_milli * 40
    &&& s.restitution_milli == if size_milli < 800 { 800 - size_milli } else { 0 }
    &&& s.position == Point { x: (SPAWN_X + jitter) as i32, y: SPAWN_Y }
}

/// The ingredient of size `size_milli / 1000` with tag `ingredient`, spawned
/// `jitter` units right of the spawn point.
pub fn ingredient_spawn(size_milli: u32, jitter: i32, ingredient: Ingredient) -> (r: IngredientSpawn)
    requires
        size_milli < SIZE_STEPS,
        -SPAWN_JITTER <= jitter <= SPAWN_JITTER,
    ensures
        spawn_body(r, size_milli as int, jitter as int),
        r.ingredient == ingredient,
{
    let restitution_milli = if size_milli < 800 { 800 - size_milli } else { 0 };
    IngredientSpawn {
        size_milli,
        mass_milli: size_milli * 4 + 200,
        radius_milli: 20_000 + size_milli * 40,
        restitution_milli,
        position: Point { x: SPAWN_X + jitter, y: SPAWN_Y },
        ingredient,
    }
}

/// Spawning, one tick: the timer advances by `delta_ns`, and when it completes
/// a period one ingredient of random size, position jitter and tag comes out.
pub fn spawn_ingredients(timer: &mut SpawnIngredientTimer, delta_ns: u64) -> (r: Option<IngredientSpawn>)
    requires
        old(timer).wf(),
    ensures
        final(timer).wf(),
        final(timer).period_spec() == old(timer).period_spec(),
        final(timer).elapsed_spec() == timer_elapsed_after(
            old(timer).period_spec(),
            old(timer).elapsed_spec(),
            delta_ns as nat,
        ),
        r.is_some() == timer_fires(old(timer).period_spec(), old(timer).elapsed_spec(), delta_ns as nat),
        r.is_some() ==> {
            let s = r.unwrap();
            &&& s.size_milli < SIZE_STEPS
            &&& SPAWN_X - SPAWN_JITTER <= s.position.x < SPAWN_X + SPAWN_JITTER
            &&& spawn_body(s, s.size_milli as int, s.position.x - SPAWN_X)
        },
        r.is_some() ==> r.unwrap().ingredient.tag() <= MAX_INGREDIENT_ID,
{
    if !timer.tick(delta_ns) {
        return None;
    }
    let size = random_in(0, SIZE_STEPS as i32) as u32;
    let jitter = random_in(-SPAWN_JITTER, SPAWN_JITTER);
    let s = ingredient_spawn(size, jitter, Ingredient::new());
    Some(s)
}

} // verus!
