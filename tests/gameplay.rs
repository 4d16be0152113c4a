use potion_drop::components::{Cauldron, Ingredient, MAX_INGREDIENT_ID};
use potion_drop::drag::{
    calc_impulse_vector, detect_drag_ingredients, handle_drag_ingredients, DragStep, ImpulseVector,
};
use potion_drop::geometry::{box_intersects_sphere, MilliPoint, Point};
use potion_drop::ingredients_list::IngredientsList;
use potion_drop::mover::move_cauldron;
use potion_drop::resources::{MouseMovementSequence, SpawnIngredientTimer};
use potion_drop::spawner::{ingredient_spawn, spawn_ingredients};
use potion_drop::sweep::{collision_cauldron, handle_outside_ingredients, CollisionEvent, IngredientBody};

const SECOND: u64 = 1_000_000_000;

fn assert_consistent(s: &MouseMovementSequence) {
    assert_eq!(s.entity().is_some(), s.starting_position().is_some());
    if s.entity().is_none() {
        assert!(s.samples().is_empty());
    }
}

fn dragging(entity: u64, start: Point) -> MouseMovementSequence {
    let mut s = MouseMovementSequence::new();
    detect_drag_ingredients(&mut s, true, Some(start), &vec![entity, entity + 1]);
    s
}

#[test]
fn sphere_inside_box_intersects() {
    assert!(box_intersects_sphere(-100, 100, -100, 100, MilliPoint::new(0, 0), 5));
    assert!(box_intersects_sphere(-100, 100, -100, 100, MilliPoint::new(104, 0), 5));
}

#[test]
fn sphere_tangent_to_box_does_not_intersect() {
    assert!(!box_intersects_sphere(-100, 100, i64::MIN, i64::MAX, MilliPoint::new(105, 7), 5));
    assert!(!box_intersects_sphere(-100, 100, i64::MIN, i64::MAX, MilliPoint::new(-105, -7), 5));
    assert!(!box_intersects_sphere(-100, 100, -100, 100, MilliPoint::new(103, 104), 5));
}

#[test]
fn sphere_near_corner_uses_euclidean_distance() {
    assert!(box_intersects_sphere(-100, 100, -100, 100, MilliPoint::new(102, 103), 4));
    assert!(!box_intersects_sphere(-100, 100, -100, 100, MilliPoint::new(103, 104), 4));
}

#[test]
fn sphere_far_away_does_not_intersect() {
    assert!(!box_intersects_sphere(-100, 100, -100, 100, MilliPoint::new(i64::MAX, i64::MIN), u32::MAX));
    assert!(box_intersects_sphere(i64::MIN, i64::MAX, i64::MIN, i64::MAX, MilliPoint::new(i64::MAX, 0), 1));
}

#[test]
fn impulse_sums_displacements() {
    let start = Point::new(10, 20);
    let samples = vec![Point::new(13, 20), Point::new(10, 26), Point::new(16, 14)];
    assert_eq!(
        calc_impulse_vector(start, &samples),
        ImpulseVector::Scaled { sum_x: 9, sum_y: 0, count: 3 }
    );
}

#[test]
fn impulse_is_linear_in_samples() {
    let start = Point::new(-5, 5);
    let a = vec![Point::new(0, 0), Point::new(5, 10)];
    let b = vec![Point::new(-10, 0)];
    let mut ab = a.clone();
    ab.extend(b.iter().copied());
    let (ax, ay) = sums(calc_impulse_vector(start, &a));
    let (bx, by) = sums(calc_impulse_vector(start, &b));
    let (cx, cy) = sums(calc_impulse_vector(start, &ab));
    assert_eq!((cx, cy), (ax + bx, ay + by));
    assert_eq!((cx, cy), (10, -5));
}

#[test]
fn impulse_ignores_sample_order() {
    let start = Point::new(2, 2);
    let a = vec![Point::new(5, 2), Point::new(2, 9), Point::new(-4, 0)];
    let b = vec![Point::new(-4, 0), Point::new(5, 2), Point::new(2, 9)];
    assert_eq!(calc_impulse_vector(start, &a), calc_impulse_vector(start, &b));
}

#[test]
fn impulse_ignores_repetition() {
    let start = Point::new(0, 0);
    let a = vec![Point::new(3, 1), Point::new(1, 5)];
    let mut twice = a.clone();
    twice.extend(a.iter().copied());
    assert_eq!(calc_impulse_vector(start, &a), ImpulseVector::Scaled { sum_x: 4, sum_y: 6, count: 2 });
    assert_eq!(
        calc_impulse_vector(start, &twice),
        ImpulseVector::Scaled { sum_x: 8, sum_y: 12, count: 4 }
    );
}

fn sums(v: ImpulseVector) -> (i128, i128) {
    match v {
        ImpulseVector::Zero => (0, 0),
        ImpulseVector::Scaled { sum_x, sum_y, .. } => (sum_x, sum_y),
    }
}

#[test]
fn still_gesture_gives_zero_impulse() {
    let start = Point::new(7, -3);
    assert_eq!(calc_impulse_vector(start, &vec![start]), ImpulseVector::Zero);
    assert_eq!(calc_impulse_vector(start, &vec![]), ImpulseVector::Zero);
    let back_and_forth = vec![Point::new(9, -3), Point::new(5, -3)];
    assert_eq!(calc_impulse_vector(start, &back_and_forth), ImpulseVector::Zero);
}

#[test]
fn detect_picks_first_hit() {
    let s = dragging(42, Point::new(1, 2));
    assert_eq!(s.entity(), Some(42));
    assert_eq!(s.starting_position(), Some(Point::new(1, 2)));
    assert!(s.samples().is_empty());
}

#[test]
fn detect_ignores_idle_inputs() {
    let mut s = MouseMovementSequence::new();
    detect_drag_ingredients(&mut s, false, Some(Point::new(0, 0)), &vec![1]);
    assert_eq!(s.entity(), None);
    detect_drag_ingredients(&mut s, true, None, &vec![1]);
    assert_eq!(s.entity(), None);
    detect_drag_ingredients(&mut s, true, Some(Point::new(0, 0)), &vec![]);
    assert_eq!(s.entity(), None);
    assert_consistent(&s);
}

#[test]
fn detect_keeps_current_drag() {
    let mut s = dragging(42, Point::new(1, 2));
    detect_drag_ingredients(&mut s, true, Some(Point::new(9, 9)), &vec![7]);
    assert_eq!(s.entity(), Some(42));
    assert_eq!(s.starting_position(), Some(Point::new(1, 2)));
}

#[test]
fn drag_aims_then_releases() {
    let start = Point::new(0, 0);
    let mut s = dragging(5, start);
    let step = handle_drag_ingredients(&mut s, Some(Point::new(4, 0)), true);
    assert_eq!(
        step,
        DragStep::Aim { start, impulse: ImpulseVector::Scaled { sum_x: 4, sum_y: 0, count: 1 } }
    );
    assert_eq!(s.samples().len(), 1);
    assert_consistent(&s);
    let step = handle_drag_ingredients(&mut s, Some(Point::new(8, 2)), false);
    assert_eq!(
        step,
        DragStep::Release {
            entity: 5,
            start,
            impulse: ImpulseVector::Scaled { sum_x: 12, sum_y: 2, count: 2 },
        }
    );
    assert_eq!(s.entity(), None);
    assert_eq!(s.starting_position(), None);
    assert!(s.samples().is_empty());
}

#[test]
fn drag_without_cursor_does_nothing() {
    let mut s = dragging(5, Point::new(0, 0));
    assert_eq!(handle_drag_ingredients(&mut s, None, false), DragStep::Idle);
    assert_eq!(s.entity(), Some(5));
    assert!(s.samples().is_empty());
}

#[test]
fn dragged_entity_swept_mid_gesture_then_translator_idles() {
    let mut s = dragging(5, Point::new(0, 0));
    handle_drag_ingredients(&mut s, Some(Point::new(10, 10)), true);
    let bodies = vec![
        IngredientBody { entity: 4, position: MilliPoint::new(0, 0), radius_milli: 20_000 },
        IngredientBody { entity: 5, position: MilliPoint::new(430_000, 0), radius_milli: 30_000 },
    ];
    let gone = handle_outside_ingredients(&mut s, 800, &bodies);
    assert_eq!(gone, vec![5]);
    assert_consistent(&s);
    assert_eq!(s.entity(), None);
    assert_eq!(handle_drag_ingredients(&mut s, Some(Point::new(20, 20)), false), DragStep::Idle);
    assert_consistent(&s);
}

#[test]
fn sweep_keeps_tracker_for_other_entities() {
    let mut s = dragging(5, Point::new(0, 0));
    let bodies = vec![
        IngredientBody { entity: 1, position: MilliPoint::new(-430_000, 900_000), radius_milli: 30_000 },
        IngredientBody { entity: 2, position: MilliPoint::new(0, -100_000_000), radius_milli: 30_000 },
        IngredientBody { entity: 3, position: MilliPoint::new(429_999, 0), radius_milli: 30_000 },
    ];
    let gone = handle_outside_ingredients(&mut s, 800, &bodies);
    assert_eq!(gone, vec![1]);
    assert_eq!(s.entity(), Some(5));
}

#[test]
fn sweep_uses_exact_half_of_odd_width() {
    let mut s = MouseMovementSequence::new();
    let bodies = vec![
        IngredientBody { entity: 1, position: MilliPoint::new(401_000, 0), radius_milli: 1_000 },
        IngredientBody { entity: 2, position: MilliPoint::new(-401_000, 0), radius_milli: 1_000 },
        IngredientBody { entity: 3, position: MilliPoint::new(401_500, 0), radius_milli: 1_000 },
        IngredientBody { entity: 4, position: MilliPoint::new(-401_500, 0), radius_milli: 1_000 },
    ];
    let gone = handle_outside_ingredients(&mut s, 801, &bodies);
    assert_eq!(gone, vec![3, 4]);
}

#[test]
fn collision_despawns_started_others() {
    let cauldron = 1;
    let mut s = dragging(9, Point::new(0, 0));
    let events = vec![
        CollisionEvent::Stopped(cauldron, 9),
        CollisionEvent::Started(cauldron, 3),
        CollisionEvent::Started(cauldron, 9),
    ];
    let gone = collision_cauldron(&mut s, cauldron, &events);
    assert_eq!(gone, vec![3, 9]);
    assert_eq!(s.entity(), None);
    assert_consistent(&s);
}

#[test]
fn collision_never_despawns_the_cauldron() {
    let cauldron = 2;
    let mut s = MouseMovementSequence::new();
    let events = vec![
        CollisionEvent::Started(1, cauldron),
        CollisionEvent::Started(cauldron, 5),
        CollisionEvent::Started(6, 7),
        CollisionEvent::Started(cauldron, cauldron),
    ];
    let gone = collision_cauldron(&mut s, cauldron, &events);
    assert_eq!(gone, vec![1, 5]);
}

#[test]
fn collision_with_other_entity_keeps_drag() {
    let mut s = dragging(9, Point::new(0, 0));
    let gone = collision_cauldron(&mut s, 1, &vec![CollisionEvent::Started(4, 1)]);
    assert_eq!(gone, vec![4]);
    assert_eq!(s.entity(), Some(9));
}

#[test]
fn reset_clears_everything() {
    let mut s = dragging(9, Point::new(3, 3));
    handle_drag_ingredients(&mut s, Some(Point::new(5, 5)), true);
    s.reset();
    assert_eq!(s.entity(), None);
    assert_eq!(s.starting_position(), None);
    assert!(s.samples().is_empty());
}

#[test]
fn spawn_timer_fires_once_without_catch_up() {
    let mut timer = SpawnIngredientTimer::new(3 * SECOND);
    let first = spawn_ingredients(&mut timer, 3 * SECOND + SECOND / 10);
    let second = spawn_ingredients(&mut timer, 0);
    assert!(first.is_some());
    assert!(second.is_none());
    assert_eq!(timer.elapsed_ns(), SECOND / 10);
}

#[test]
fn spawn_timer_fires_when_period_completes() {
    let mut timer = SpawnIngredientTimer::new(3 * SECOND);
    assert!(spawn_ingredients(&mut timer, 2 * SECOND + 9 * SECOND / 10).is_none());
    assert!(spawn_ingredients(&mut timer, SECOND / 10).is_some());
    assert_eq!(timer.elapsed_ns(), 0);
}

#[test]
fn spawn_timer_reports_one_period_for_many() {
    let mut timer = SpawnIngredientTimer::new(3 * SECOND);
    assert!(!timer.tick(2 * SECOND));
    assert!(timer.tick(8 * SECOND));
    assert_eq!(timer.elapsed_ns(), SECOND);
    assert!(!timer.tick(SECOND));
}

#[test]
fn spawned_ingredients_stay_in_range() {
    let mut timer = SpawnIngredientTimer::new(SECOND);
    for _ in 0..200 {
        let s = spawn_ingredients(&mut timer, SECOND).unwrap();
        assert!(s.size_milli < 1000);
        assert_eq!(s.mass_milli, s.size_milli * 4 + 200);
        assert!(s.position.x >= -220 && s.position.x < -180);
        assert_eq!(s.position.y, 580);
        assert!(s.ingredient.id() <= MAX_INGREDIENT_ID);
    }
}

#[test]
fn spawn_body_formulas() {
    let ingredient = Ingredient::new();
    let s = ingredient_spawn(500, -7, ingredient);
    assert_eq!(s.mass_milli, 2200);
    assert_eq!(s.radius_milli, 40_000);
    assert_eq!(s.restitution_milli, 300);
    assert_eq!(s.position, Point::new(-207, 580));
    let heavy = ingredient_spawn(900, 0, ingredient);
    assert_eq!(heavy.restitution_milli, 0);
    assert_eq!(heavy.mass_milli, 3800);
    assert_eq!(heavy.radius_milli, 56_000);
}

#[test]
fn ingredient_ids_vary_within_range() {
    let mut seen = [false; 11];
    for _ in 0..2000 {
        let id = Ingredient::new().id();
        assert!(id <= MAX_INGREDIENT_ID);
        seen[id as usize] = true;
    }
    assert!(seen.iter().filter(|b| **b).count() > 1);
}

#[test]
fn cauldron_follows_seventy_percent() {
    let mut cauldron = MilliPoint::new(0, -225_000);
    move_cauldron(&mut cauldron, true, 800, 600, Some(MilliPoint::new(430_000, 500_000)));
    assert_eq!(cauldron, MilliPoint::new(21_000, -207_500));
    let mut back = MilliPoint::new(0, -225_000);
    move_cauldron(&mut back, true, 800, 600, Some(MilliPoint::new(370_000, 500_000)));
    assert_eq!(back, MilliPoint::new(-21_000, -207_500));
}

#[test]
fn cauldron_short_moves_keep_seventy_percent() {
    // One unit away: the cauldron covers 0.7 of it.
    let mut cauldron = MilliPoint::new(0, -225_000);
    move_cauldron(&mut cauldron, true, 800, 600, Some(MilliPoint::new(401_000, 525_000)));
    assert_eq!(cauldron, MilliPoint::new(700, -225_000));
}

#[test]
fn cauldron_stays_when_cursor_outside_or_released() {
    let mut cauldron = MilliPoint::new(0, -225_000);
    move_cauldron(&mut cauldron, true, 800, 600, Some(MilliPoint::new(600_000, 500_000)));
    assert_eq!(cauldron, MilliPoint::new(0, -225_000));
    move_cauldron(&mut cauldron, false, 800, 600, Some(MilliPoint::new(430_000, 500_000)));
    assert_eq!(cauldron, MilliPoint::new(0, -225_000));
    move_cauldron(&mut cauldron, true, 800, 600, None);
    assert_eq!(cauldron, MilliPoint::new(0, -225_000));
}

#[test]
fn cauldron_target_is_clamped() {
    // The cursor lies far below the window; the target is the lowest position.
    let mut cauldron = MilliPoint::new(0, -200_000);
    move_cauldron(&mut cauldron, true, 800, 600, Some(MilliPoint::new(400_000, 5_000_000)));
    assert_eq!(cauldron, MilliPoint::new(0, -217_500));
}

#[test]
fn cauldron_odd_window_uses_exact_halves() {
    // A 801 wide window is centered at 400.5 units.
    let mut cauldron = MilliPoint::new(0, -225_500);
    move_cauldron(&mut cauldron, true, 801, 601, Some(MilliPoint::new(410_500, 525_500)));
    assert_eq!(cauldron, MilliPoint::new(7_000, -225_150));
}

#[test]
fn ingredients_list_has_head_and_next() {
    let list = IngredientsList::new(3);
    assert!(list.head().unwrap() <= MAX_INGREDIENT_ID);
    assert!(list.next().unwrap() <= MAX_INGREDIENT_ID);
    let default_list = IngredientsList::default();
    assert!(default_list.head().is_some());
    assert!(!Cauldron::new().is_selected);
}
