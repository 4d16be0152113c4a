use vstd::prelude::*;

use crate::geometry::Point;

verus! {

/// What the drag tracker holds, as mathematical values.
pub ghost struct DragView {
    pub starting_position: Option<Point>,
    pub samples: Seq<Point>,
    pub entity: Option<u64>,
}

impl DragView {
    /// The tracker with no gesture in progress.
    pub open spec fn idle() -> DragView {
        DragView { starting_position: None, samples: Seq::empty(), entity: None }
    }

    /// A dragged entity and a start point come and go together, and samples
    /// are only taken while something is dragged.
    pub open spec fn consistent(self) -> bool {
        &&& self.entity.is_some() == self.starting_position.is_some()
        &&& self.entity.is_none() ==> self.samples.len() == 0
    }

    /// The tracker after the entities of `gone` left the world.
    pub open spec fn forget_all(self, gone: Seq<u64>) -> DragView {
        if self.entity.is_some() && gone.contains(self.entity.unwrap()) {
            DragView::idle()
        } else {
            self
        }
    }

    /// The tracker after the entity `e` left the world.
    pub open spec fn forget(self, e: u64) -> DragView {
        if self.entity == Some(e) { DragView::idle() } else { self }
    }
}

/// The gesture in progress: the dragged entity, where the drag started, and
/// the cursor positions sampled since, oldest first.
pub struct MouseMovementSequence {
    starting_position: Option<Point>,
    samples: Vec<Point>,
    entity: Option<u64>,
}

impl View for MouseMovementSequence {
    type V = DragView;

    closed spec fn view(&self) -> DragView {
        DragView {
            starting_position: self.starting_position,
            samples: self.samples@,
            entity: self.entity,
        }
    }
}

impl MouseMovementSequence {
    pub fn new() -> (r: MouseMovementSequence)
        ensures
            r@ == DragView::idle(),
            r@.consistent(),
    {
        MouseMovementSequence { starting_position: None, samples: Vec::new(), entity: None }
    }

    pub fn entity(&self) -> (r: Option<u64>)
        ensures
            r == self@.entity,
    {
        self.entity
    }

    pub fn starting_position(&self) -> (r: Option<Point>)
        ensures
            r == self@.starting_position,
    {
        self.starting_position
    }

    pub fn samples(&self) -> (r: &Vec<Point>)
        ensures
            r@ == self@.samples,
    {
        &self.samples
    }

    /// Ends the gesture: every field is cleared.
    pub fn reset(&mut self)
        ensures
            final(self)@.consistent(),
            final(self)@ == DragView::idle(),
    {
        self.starting_position = None;
        self.samples = Vec::new();
        self.entity = None;
    }

    /// Starts dragging `entity` from `point`, when nothing is dragged yet.
    pub fn begin(&mut self, entity: u64, point: Point)
        requires
            old(self)@.consistent(),
        ensures
            final(self)@.consistent(),
            old(self)@.entity.is_none() ==> final(self)@ == (DragView {
                starting_position: Some(point),
                samples: Seq::empty(),
                entity: Some(entity),
            }),
            old(self)@.entity.is_some() ==> final(self)@ == old(self)@,
    {
        if self.entity.is_none() {
            assert(self.samples@ =~= Seq::empty());
            self.entity = Some(entity);
            self.starting_position = Some(point);
        }
    }

    /// Records a cursor sample of the gesture in progress; without a gesture
    /// nothing changes.
    pub fn push_sample(&mut self, point: Point)
        requires
            old(self)@.consistent(),
        ensures
            final(self)@.consistent(),
            old(self)@.entity.is_some() ==> final(self)@ == (DragView {
                samples: old(self)@.samples.push(point),
                ..old(self)@
            }),
            old(self)@.entity.is_none() ==> final(self)@ == old(self)@,
    {
        if self.entity.is_some() {
            self.samples.push(point);
        }
    }

    /// Clears the tracker when `entity`, which has just been despawned, is the
    /// one being dragged.
    pub fn forget_entity(&mut self, entity: u64)
        requires
            old(self)@.consistent(),
        ensures
            final(self)@.consistent(),
            final(self)@ == old(self)@.forget(entity),
    {
        match self.entity {
            Some(e) => {
                if e == entity {
                    self.reset();
                }
            },
            None => {},
        }
    }
}

/// Whether a repeating timer `period` long, `elapsed` into its period,
/// completes a period when `delta` more time passes.
pub open spec fn timer_fires(period: nat, elapsed: nat, delta: nat) -> bool {
    elapsed + delta >= period
}

/// Where that timer stands in its period afterwards.
pub open spec fn timer_elapsed_after(period: nat, elapsed: nat, delta: nat) -> nat {
    if period == 0 { 0 } else { (elapsed + delta) % period }
}

/// No catch-up: however long a tick was, the timer is left inside its
/// period, so a following tick in which no time passes does not fire.
pub proof fn lemma_timer_no_catch_up(period: nat, elapsed: nat, delta: nat)
    requires
        period > 0,
    ensures
        timer_elapsed_after(period, elapsed, delta) < period,
        !timer_fires(period, timer_elapsed_after(period, elapsed, delta), 0),
{
}

/// The repeating spawn countdown, in nanoseconds. A tick reports at most one
/// completed period, however many periods it spans.
pub struct SpawnIngredientTimer {
    period_ns: u64,
    elapsed_ns: u64,
}

impl SpawnIngredientTimer {
    /// Lies within the current period.
    pub closed spec fn wf(&self) -> bool {
        self.period_ns == 0 || self.elapsed_ns < self.period_ns
    }

    pub closed spec fn period_spec(&self) -> nat {
        self.period_ns as nat
    }

    pub closed spec fn elapsed_spec(&self) -> nat {
        self.elapsed_ns as nat
    }

    /// A timer at the start of a period `period_ns` long.
    pub fn new(period_ns: u64) -> (r: SpawnIngredientTimer)
        ensures
            r.wf(),
            r.period_spec() == period_ns,
            r.elapsed_spec() == 0,
    {
        SpawnIngredientTimer { period_ns, elapsed_ns: 0 }
    }

    pub fn period_ns(&self) -> (r: u64)
        ensures
            r == self.period_spec(),
    {
        self.period_ns
    }

    pub fn elapsed_ns(&self) -> (r: u64)
        ensures
            r == self.elapsed_spec(),
    {
        self.elapsed_ns
    }

    /// Advances the timer by `delta_ns`; tells whether a period completed.
    pub fn tick(&mut self, delta_ns: u64) -> (r: bool)
        requires
            old(self).wf(),
        ensures
            final(self).wf(),
            final(self).period_spec() == old(self).period_spec(),
            r == timer_fires(old(self).period_spec(), old(self).elapsed_spec(), delta_ns as nat),
            final(self).elapsed_spec() == timer_elapsed_after(
                old(self).period_spec(),
                old(self).elapsed_spec(),
                delta_ns as nat,
            ),
    {
        let total: u128 = self.elapsed_ns as u128 + delta_ns as u128;
        let fired = total >= self.period_ns as u128;
        if self.period_ns == 0 {
            self.elapsed_ns = 0;
        } else {
            let rest = total % (self.period_ns as u128);
            self.elapsed_ns = rest as u64;
        }
        fired
    }
}

} // verus!
