//! Step sizes for the simulation, counted in whole nanoseconds.
//!
//! A step is either fixed or picked from an ascending list of candidates.
//! Moving to a larger candidate (fewer updates per second) is only allowed
//! after the simulation has been running slow, without interruption, for a
//! configured minimum time; moving to a smaller candidate is always allowed
//! while a smaller one exists.

use vstd::prelude::*;

verus! {

/// Nanoseconds in one second.
pub const NANOS_PER_SECOND: u64 = 1_000_000_000;

/// The step used when nothing else is configured: 1/120 of a second.
pub const DEFAULT_TIMESTEP: u64 = 8_333_333;

/// A non-negative rational factor, such as a time scale or a share of the
/// frame time.
#[derive(Clone, Copy, Debug, PartialEq, Eq, Structural)]
pub struct Ratio {
    pub numerator: u32,
    pub denominator: u32,
}

impl Ratio {
    /// A ratio is usable when its denominator is not zero.
    pub open spec fn wf(self) -> bool {
        self.denominator > 0
    }

    /// A usable ratio that is larger than zero.
    pub open spec fn positive(self) -> bool {
        self.denominator > 0 && self.numerator > 0
    }

    /// The factor one.
    pub fn one() -> (r: Ratio)
        ensures
            r == (Ratio { numerator: 1, denominator: 1 }),
    {
        Ratio { numerator: 1, denominator: 1 }
    }
}

/// Why a change of the step size was refused. None of these is fatal: the
/// step stays as it was.
#[derive(Clone, Copy, Debug, PartialEq, Eq, Structural)]
pub enum TimeStepChangeError {
    /// No smaller timestep available.
    MinimumTimestepReached,
    /// No larger timestep available.
    MaximumTimestepReached,
    /// The simulation has not been running slow for long enough; the payload
    /// is the time that is still missing, in nanoseconds.
    MinimumTimeNotReached(u64),
    /// The simulation is not running slow at all.
    NotRunningSlow,
}

impl TimeStepChangeError {
    /// The text that describes this refusal.
    pub open spec fn message_text(self) -> Seq<char> {
        match self {
            TimeStepChangeError::MaximumTimestepReached => "No larger timestep available!"@,
            TimeStepChangeError::MinimumTimestepReached => "No smaller timestep available!"@,
            TimeStepChangeError::MinimumTimeNotReached(_) =>
                "Physics have not been running slow for the minimum time yet!"@,
            TimeStepChangeError::NotRunningSlow => "Physics are not running slow!"@,
        }
    }

    /// A human-readable description, for logs.
    pub fn message(&self) -> (text: String)
        ensures
            text@ == self.message_text(),
    {
        match self {
            TimeStepChangeError::MaximumTimestepReached => "No larger timestep available!".to_owned(),
            TimeStepChangeError::MinimumTimestepReached => "No smaller timestep available!".to_owned(),
            TimeStepChangeError::MinimumTimeNotReached(_) =>
                "Physics have not been running slow for the minimum time yet!".to_owned(),
            TimeStepChangeError::NotRunningSlow => "Physics are not running slow!".to_owned(),
        }
    }
}

/// Every element is strictly smaller than the next one.
pub open spec fn strictly_ascending(s: Seq<u64>) -> bool {
    forall|i: int, j: int| 0 <= i < j < s.len() ==> s[i] < s[j]
}

/// Time that has passed between `since` and `now`; zero when the clock
/// reads earlier than `since`.
pub open spec fn elapsed_between(since: u64, now: u64) -> int {
    if now >= since {
        now - since
    } else {
        0
    }
}

/// What a [`TimeStepConstraint`] holds, as mathematical values.
pub struct ConstraintView {
    /// The candidate steps, smallest first.
    pub steps: Seq<u64>,
    /// Position of the step in use.
    pub index: int,
    /// Share of the real time that the simulation may use up.
    pub max_physics_time_fraction: Ratio,
    /// How long the simulation has to run slow before the step may grow.
    pub minimum_slow_time: u64,
    /// When the simulation began to run slow, if it does.
    pub running_slow_since: Option<u64>,
}

impl ConstraintView {
    /// The candidates are positive, strictly ascending and not empty, the
    /// index points at one of them, and the time fraction is positive.
    pub open spec fn wf(self) -> bool {
        &&& self.steps.len() > 0
        &&& self.steps[0] > 0
        &&& strictly_ascending(self.steps)
        &&& 0 <= self.index < self.steps.len()
        &&& self.max_physics_time_fraction.positive()
    }

    /// The step in use.
    pub open spec fn current(self) -> u64 {
        self.steps[self.index]
    }

    /// The next smaller candidate, if there is one.
    pub open spec fn smaller(self) -> Option<u64> {
        if self.index == 0 {
            None
        } else {
            Some(self.steps[self.index - 1])
        }
    }

    /// Why the step may not grow at time `now`; `None` when it may.
    pub open spec fn increase_refusal(self, now: u64) -> Option<TimeStepChangeError> {
        if self.index >= self.steps.len() - 1 {
            Some(TimeStepChangeError::MaximumTimestepReached)
        } else {
            match self.running_slow_since {
                None => Some(TimeStepChangeError::NotRunningSlow),
                Some(since) => {
                    if elapsed_between(since, now) < self.minimum_slow_time {
                        Some(
                            TimeStepChangeError::MinimumTimeNotReached(
                                (self.minimum_slow_time - elapsed_between(since, now)) as u64,
                            ),
                        )
                    } else {
                        None
                    }
                },
            }
        }
    }

    /// The state after an attempt to grow the step at time `now`. A
    /// successful attempt also forgets since when the simulation ran slow.
    pub open spec fn increased(self, now: u64) -> ConstraintView {
        if self.increase_refusal(now) is None {
            ConstraintView { index: self.index + 1, running_slow_since: None, ..self }
        } else {
            self
        }
    }

    /// Why the step may not shrink; `None` when it may.
    pub open spec fn decrease_refusal(self) -> Option<TimeStepChangeError> {
        if self.index <= 0 {
            Some(TimeStepChangeError::MinimumTimestepReached)
        } else {
            None
        }
    }

    /// The state after an attempt to shrink the step.
    pub open spec fn decreased(self) -> ConstraintView {
        if self.decrease_refusal() is None {
            ConstraintView { index: self.index - 1, ..self }
        } else {
            self
        }
    }

    /// The state after the stepper reported at time `now` whether the
    /// simulation is running slow.
    pub open spec fn signalled(self, is_running_slow: bool, now: u64) -> ConstraintView {
        if is_running_slow {
            if self.running_slow_since is None {
                ConstraintView { running_slow_since: Some(now), ..self }
            } else {
                self
            }
        } else {
            ConstraintView { running_slow_since: None, ..self }
        }
    }
}

/// Constraints for a semi-fixed timestep.
pub struct TimeStepConstraint {
    /// Possible timesteps to use, smallest first, none twice.
    time_steps: Vec<u64>,
    /// Index of the currently used timestep.
    current_index: usize,
    /// Share of the real time that physics may take.
    max_physics_time_fraction: Ratio,
    /// Minimum time of running slow before the timestep grows.
    minimum_slow_time: u64,
    /// Time at which physics began to run slow.
    running_slow_since: Option<u64>,
}

impl View for TimeStepConstraint {
    type V = ConstraintView;

    closed spec fn view(&self) -> ConstraintView {
        ConstraintView {
            steps: self.time_steps@,
            index: self.current_index as int,
            max_physics_time_fraction: self.max_physics_time_fraction,
            minimum_slow_time: self.minimum_slow_time,
            running_slow_since: self.running_slow_since,
        }
    }
}

/// Puts `step` at its place in the ascending list `steps`, unless it is
/// there already.
fn insert_step(steps: &mut Vec<u64>, step: u64)
    requires
        strictly_ascending(old(steps)@),
    ensures
        strictly_ascending(final(steps)@),
        forall|x: u64| final(steps)@.contains(x) <==> (old(steps)@.contains(x) || x == step),
{
    let mut at: usize = 0;
    while at < steps.len() && steps[at] < step
        invariant
            at <= steps.len(),
            steps@ == old(steps)@,
            forall|k: int| 0 <= k < at ==> steps@[k] < step,
        decreases steps.len() - at,
    {
        at += 1;
    }
    if at < steps.len() && steps[at] == step {
        assert(steps@.contains(step));
    } else {
        let ghost before = steps@;
        steps.insert(at, step);
        assert(steps@ == before.insert(at as int, step));
        assert forall|i: int, j: int| 0 <= i < j < steps@.len() implies steps@[i] < steps@[j] by {
            if j < at {
                assert(steps@[i] == before[i] && steps@[j] == before[j]);
            } else if j == at {
                assert(steps@[i] == before[i]);
            } else if i < at {
                assert(steps@[i] == before[i] && steps@[j] == before[j - 1]);
            } else if i == at {
                assert(steps@[j] == before[j - 1]);
                assert(before[at as int] <= before[j - 1]);
            } else {
                assert(steps@[i] == before[i - 1] && steps@[j] == before[j - 1]);
            }
        }
        assert forall|x: u64| steps@.contains(x) <==> (before.contains(x) || x == step) by {
            if steps@.contains(x) {
                let i = choose|i: int| 0 <= i < steps@.len() && steps@[i] == x;
                if i < at {
                    assert(before[i] == x);
                } else if i > at {
                    assert(before[i - 1] == x);
                }
            }
            if before.contains(x) {
                let i = choose|i: int| 0 <= i < before.len() && before[i] == x;
                if i < at {
                    assert(steps@[i] == x);
                } else {
                    assert(steps@[i + 1] == x);
                }
            }
            if x == step {
                assert(steps@[at as int] == x);
            }
        }
    }
}

impl TimeStepConstraint {
    /// The constraint's own invariant: see [`ConstraintView::wf`].
    pub open spec fn wf(&self) -> bool {
        self@.wf()
    }

    /// Creates a constraint from the candidate timesteps, in any order and
    /// with repetitions, and from the minimum time of running slow before
    /// the timestep grows. The smallest candidate is in use at first, and
    /// physics may take all of the real time.
    ///
    /// There has to be a candidate, and no candidate may be zero.
    pub fn new(time_steps: Vec<u64>, minimum_slow_time: u64) -> (c: Self)
        requires
            time_steps@.len() > 0,
            forall|i: int| 0 <= i < time_steps@.len() ==> time_steps@[i] > 0,
        ensures
            c.wf(),
            forall|x: u64| c@.steps.contains(x) <==> time_steps@.contains(x),
            c@.index == 0,
            c@.max_physics_time_fraction == (Ratio { numerator: 1, denominator: 1 }),
            c@.minimum_slow_time == minimum_slow_time,
            c@.running_slow_since is None,
    {
        let mut sorted: Vec<u64> = Vec::new();
        let mut i: usize = 0;
        while i < time_steps.len()
            invariant
                i <= time_steps.len(),
                strictly_ascending(sorted@),
                forall|x: u64|
                    sorted@.contains(x) <==> time_steps@.subrange(0, i as int).contains(x),
            decreases time_steps.len() - i,
        {
            let ghost seen = time_steps@.subrange(0, i as int);
            let ghost before = sorted@;
            insert_step(&mut sorted, time_steps[i]);
            i += 1;
            proof {
                let now_seen = time_steps@.subrange(0, i as int);
                assert forall|x: u64| sorted@.contains(x) <==> now_seen.contains(x) by {
                    if now_seen.contains(x) {
                        let k = choose|k: int| 0 <= k < now_seen.len() && now_seen[k] == x;
                        if k < i - 1 {
                            assert(seen[k] == x);
                        }
                    }
                    if before.contains(x) {
                        let k = choose|k: int| 0 <= k < seen.len() && seen[k] == x;
                        assert(now_seen[k] == x);
                    }
                    if x == time_steps@[i - 1] {
                        assert(now_seen[i - 1] == x);
                    }
                }
            }
        }
        proof {
            assert(time_steps@.subrange(0, i as int) == time_steps@);
            assert(time_steps@.contains(time_steps@[0]));
            assert(sorted@.contains(time_steps@[0]));
            assert(sorted@.len() > 0);
            assert(sorted@.contains(sorted@[0]));
            let k = choose|k: int| 0 <= k < time_steps@.len() && time_steps@[k] == sorted@[0];
            assert(time_steps@[k] > 0);
        }
        TimeStepConstraint {
            time_steps: sorted,
            current_index: 0,
            max_physics_time_fraction: Ratio { numerator: 1, denominator: 1 },
            minimum_slow_time,
            running_slow_since: None,
        }
    }

    /// The same constraint with another share of the real time that physics
    /// may take.
    pub fn with_max_physics_time_fraction(self, fraction: Ratio) -> (c: Self)
        requires
            self.wf(),
            fraction.positive(),
        ensures
            c.wf(),
            c@ == (ConstraintView { max_physics_time_fraction: fraction, ..self@ }),
    {
        TimeStepConstraint {
            time_steps: self.time_steps,
            current_index: self.current_index,
            max_physics_time_fraction: fraction,
            minimum_slow_time: self.minimum_slow_time,
            running_slow_since: self.running_slow_since,
        }
    }

    /// Increase the timestep. This corresponds to fewer updates per second.
    ///
    /// Succeeds only if a larger candidate exists and physics have been
    /// running slow since at least `minimum_slow_time` before `now`.
    pub fn increase_timestep(&mut self, now: u64) -> (r: Result<u64, TimeStepChangeError>)
        requires
            old(self).wf(),
        ensures
            final(self).wf(),
            final(self)@ == old(self)@.increased(now),
            match r {
                Ok(step) => old(self)@.increase_refusal(now) is None && step == final(self)@.current(),
                Err(error) => old(self)@.increase_refusal(now) == Some(error),
            },
    {
        if self.current_index >= self.time_steps.len() - 1 {
            return Err(TimeStepChangeError::MaximumTimestepReached);
        }
        match self.running_slow_since {
            None => Err(TimeStepChangeError::NotRunningSlow),
            Some(since) => {
                let elapsed: u64 = if now >= since {
                    now - since
                } else {
                    0
                };
                if elapsed < self.minimum_slow_time {
                    Err(TimeStepChangeError::MinimumTimeNotReached(self.minimum_slow_time - elapsed))
                } else {
                    self.current_index += 1;
                    self.running_slow_since = None;
                    Ok(self.time_steps[self.current_index])
                }
            },
        }
    }

    /// Decrease the timestep. This corresponds to more updates per second.
    pub fn decrease_timestep(&mut self) -> (r: Result<u64, TimeStepChangeError>)
        requires
            old(self).wf(),
        ensures
            final(self).wf(),
            final(self)@ == old(self)@.decreased(),
            match r {
                Ok(step) => old(self)@.decrease_refusal() is None && step == final(self)@.current(),
                Err(error) => old(self)@.decrease_refusal() == Some(error),
            },
    {
        if self.current_index == 0 {
            return Err(TimeStepChangeError::MinimumTimestepReached);
        }
        self.current_index -= 1;
        Ok(self.time_steps[self.current_index])
    }

    /// Get the currently used timestep.
    pub fn current_timestep(&self) -> (step: u64)
        requires
            self.wf(),
        ensures
            step == self@.current(),
            step > 0,
    {
        proof {
            if self.current_index > 0 {
                assert(self.time_steps@[0] < self.time_steps@[self.current_index as int]);
            }
        }
        self.time_steps[self.current_index]
    }

    /// Get next smaller timestep.
    pub fn smaller_timestep(&self) -> (step: Option<u64>)
        requires
            self.wf(),
        ensures
            step == self@.smaller(),
    {
        if self.current_index == 0 {
            None
        } else {
            Some(self.time_steps[self.current_index - 1])
        }
    }

    /// Share of the real time that physics may take.
    pub fn max_physics_time_fraction(&self) -> (fraction: Ratio)
        ensures
            fraction == self@.max_physics_time_fraction,
    {
        self.max_physics_time_fraction
    }

    /// Tells the constraint at time `now` whether physics are running slow.
    /// The first such report in a row is remembered as the start of the
    /// slow period; a report to the contrary ends the period.
    pub fn set_running_slow(&mut self, is_running_slow: bool, now: u64)
        ensures
            final(self)@ == old(self)@.signalled(is_running_slow, now),
            old(self).wf() ==> final(self).wf(),
    {
        if is_running_slow {
            if self.running_slow_since.is_none() {
                self.running_slow_since = Some(now);
            }
        } else {
            self.running_slow_since = None;
        }
    }
}

/// The step `step`, weighed for a comparison with a cost: `step` is below
/// `cost * time_scale / fraction` exactly if `weighed_step` is below
/// `weighed_cost`.
pub open spec fn weighed_step(step: u64, time_scale: Ratio, fraction: Ratio) -> int {
    step * time_scale.denominator * fraction.numerator
}

/// The cost of one step, weighed for a comparison with a step size.
pub open spec fn weighed_cost(cost: u64, time_scale: Ratio, fraction: Ratio) -> int {
    cost * time_scale.numerator * fraction.denominator
}

/// What the measured cost of a step asks of the step size.
#[derive(Clone, Copy, Debug, PartialEq, Eq, Structural)]
pub enum Adjustment {
    /// The step stays.
    Keep,
    /// A step takes longer to compute than it simulates: use a larger one.
    Increase,
    /// Even the next smaller step would be computed in time: use it.
    Decrease,
}

impl ConstraintView {
    /// What the average cost of a step, if one is known, asks for.
    pub open spec fn wanted_adjustment(self, average_step_time: Option<u64>, time_scale: Ratio) -> Adjustment {
        match average_step_time {
            None => Adjustment::Keep,
            Some(cost) => {
                let fraction = self.max_physics_time_fraction;
                if weighed_step(self.current(), time_scale, fraction) < weighed_cost(cost, time_scale, fraction) {
                    Adjustment::Increase
                } else if self.index > 0 && weighed_step(self.steps[self.index - 1], time_scale, fraction)
                    > weighed_cost(cost, time_scale, fraction) {
                    Adjustment::Decrease
                } else {
                    Adjustment::Keep
                }
            },
        }
    }

    /// Why the wanted adjustment is refused at time `now`, if it is.
    pub open spec fn adjustment_refusal(
        self,
        average_step_time: Option<u64>,
        time_scale: Ratio,
        now: u64,
    ) -> Option<TimeStepChangeError> {
        match self.wanted_adjustment(average_step_time, time_scale) {
            Adjustment::Keep => None,
            Adjustment::Increase => self.increase_refusal(now),
            Adjustment::Decrease => self.decrease_refusal(),
        }
    }

    /// The state after the wanted adjustment was tried at time `now`.
    pub open spec fn adjusted(self, average_step_time: Option<u64>, time_scale: Ratio, now: u64) -> ConstraintView {
        match self.wanted_adjustment(average_step_time, time_scale) {
            Adjustment::Keep => self,
            Adjustment::Increase => self.increased(now),
            Adjustment::Decrease => self.decreased(),
        }
    }
}

/// The type of time step to use for the physics simulation.
pub enum TimeStep {
    /// Physics will always use the given timestep.
    Fixed(u64),
    /// Physics use one of the given timesteps, changing when physics are
    /// falling behind.
    SemiFixed(TimeStepConstraint),
}

/// What a [`TimeStep`] holds, as mathematical values.
pub enum TimeStepView {
    /// Always the given step.
    Fixed(u64),
    /// One of several steps, as the constraint has it.
    SemiFixed(ConstraintView),
}

impl TimeStepView {
    /// A fixed step is positive; a constraint is well formed.
    pub open spec fn wf(self) -> bool {
        match self {
            TimeStepView::Fixed(step) => step > 0,
            TimeStepView::SemiFixed(constraint) => constraint.wf(),
        }
    }

    /// The step in use.
    pub open spec fn current(self) -> u64 {
        match self {
            TimeStepView::Fixed(step) => step,
            TimeStepView::SemiFixed(constraint) => constraint.current(),
        }
    }

    /// The state after one frame's choice of step at time `now`.
    pub open spec fn adjusted(self, average_step_time: Option<u64>, time_scale: Ratio, now: u64) -> TimeStepView {
        match self {
            TimeStepView::Fixed(step) => self,
            TimeStepView::SemiFixed(constraint) => TimeStepView::SemiFixed(
                constraint.adjusted(average_step_time, time_scale, now),
            ),
        }
    }

    /// Why this frame's adjustment is refused, if one is wanted and refused.
    pub open spec fn adjustment_refusal(
        self,
        average_step_time: Option<u64>,
        time_scale: Ratio,
        now: u64,
    ) -> Option<TimeStepChangeError> {
        match self {
            TimeStepView::Fixed(step) => None,
            TimeStepView::SemiFixed(constraint) => constraint.adjustment_refusal(
                average_step_time,
                time_scale,
                now,
            ),
        }
    }

    /// The state after the stepper reported whether physics run slow.
    pub open spec fn signalled(self, is_running_slow: bool, now: u64) -> TimeStepView {
        match self {
            TimeStepView::Fixed(step) => self,
            TimeStepView::SemiFixed(constraint) => TimeStepView::SemiFixed(
                constraint.signalled(is_running_slow, now),
            ),
        }
    }
}

impl View for TimeStep {
    type V = TimeStepView;

    open spec fn view(&self) -> TimeStepView {
        match self {
            TimeStep::Fixed(step) => TimeStepView::Fixed(*step),
            TimeStep::SemiFixed(constraint) => TimeStepView::SemiFixed(constraint@),
        }
    }
}

impl Default for TimeStep {
    fn default() -> (step: Self)
        ensures
            step == TimeStep::Fixed(DEFAULT_TIMESTEP),
    {
        TimeStep::Fixed(DEFAULT_TIMESTEP)
    }
}

/// The step chosen for a frame.
#[derive(Clone, Copy, Debug, PartialEq, Eq, Structural)]
pub struct Resolution {
    /// The step to simulate with.
    pub timestep: u64,
    /// Whether it differs from the step of the frame before.
    pub changed: bool,
    /// Why a wanted change of the step was refused, if one was.
    pub refusal: Option<TimeStepChangeError>,
}

/// Whether `step` is below `cost * time_scale / fraction`.
fn step_below_cost(step: u64, cost: u64, time_scale: Ratio, fraction: Ratio) -> (below: bool)
    ensures
        below == (weighed_step(step, time_scale, fraction) < weighed_cost(cost, time_scale, fraction)),
{
    let left: u128 = weigh(step, time_scale.denominator, fraction.numerator);
    let right: u128 = weigh(cost, time_scale.numerator, fraction.denominator);
    left < right
}

/// Whether `step` is above `cost * time_scale / fraction`.
fn step_above_cost(step: u64, cost: u64, time_scale: Ratio, fraction: Ratio) -> (above: bool)
    ensures
        above == (weighed_step(step, time_scale, fraction) > weighed_cost(cost, time_scale, fraction)),
{
    let left: u128 = weigh(step, time_scale.denominator, fraction.numerator);
    let right: u128 = weigh(cost, time_scale.numerator, fraction.denominator);
    left > right
}

/// The product of a time and two factors; it always fits.
fn weigh(time: u64, first: u32, second: u32) -> (product: u128)
    ensures
        product == time * first * second,
{
    assert(time * first <= 0xffff_ffff_ffff_ffff * 0xffff_ffff) by (nonlinear_arith)
        requires
            time <= 0xffff_ffff_ffff_ffff,
            first <= 0xffff_ffff,
    ;
    let partial: u128 = (time as u128) * (first as u128);
    assert(partial * second <= 0xffff_ffff_ffff_ffff * 0xffff_ffff * 0xffff_ffff) by (nonlinear_arith)
        requires
            partial <= 0xffff_ffff_ffff_ffff * 0xffff_ffff,
            second <= 0xffff_ffff,
    ;
    partial * (second as u128)
}

impl TimeStep {
    /// See [`TimeStepView::wf`].
    pub open spec fn wf(&self) -> bool {
        self@.wf()
    }

    /// The step in use.
    pub fn current_timestep(&self) -> (step: u64)
        requires
            self.wf(),
        ensures
            step == self@.current(),
            step > 0,
    {
        match self {
            TimeStep::Fixed(step) => *step,
            TimeStep::SemiFixed(constraint) => constraint.current_timestep(),
        }
    }

    /// Chooses the step for the frame that begins at time `now`.
    ///
    /// A fixed step never changes. A semi-fixed step stays while no average
    /// cost of a step is known. Else the cost is scaled by `time_scale` and
    /// divided by the share of real time that physics may take: a step
    /// below that is too fine and should grow; if it is not, and the next
    /// smaller candidate is still above that, the step should shrink. A
    /// change that the constraint refuses leaves the step as it was and is
    /// reported in the result.
    pub fn resolve(&mut self, average_step_time: Option<u64>, time_scale: Ratio, now: u64) -> (chosen: Resolution)
        requires
            old(self).wf(),
            time_scale.wf(),
        ensures
            final(self).wf(),
            final(self)@ == old(self)@.adjusted(average_step_time, time_scale, now),
            chosen.timestep == final(self)@.current(),
            chosen.timestep > 0,
            chosen.changed == (final(self)@.current() != old(self)@.current()),
            chosen.refusal == old(self)@.adjustment_refusal(average_step_time, time_scale, now),
    {
        match self {
            TimeStep::Fixed(step) => Resolution { timestep: *step, changed: false, refusal: None },
            TimeStep::SemiFixed(constraint) => {
                let current = constraint.current_timestep();
                let mut chosen = Resolution { timestep: current, changed: false, refusal: None };
                if let Some(cost) = average_step_time {
                    let fraction = constraint.max_physics_time_fraction();
                    if step_below_cost(current, cost, time_scale, fraction) {
                        match constraint.increase_timestep(now) {
                            Err(error) => {
                                chosen.refusal = Some(error);
                            },
                            Ok(new_timestep) => {
                                chosen.timestep = new_timestep;
                                chosen.changed = true;
                            },
                        }
                    } else if let Some(smaller) = constraint.smaller_timestep() {
                        // Is there time enough to simulate with a smaller timestep?
                        if step_above_cost(smaller, cost, time_scale, fraction) {
                            match constraint.decrease_timestep() {
                                Err(error) => {
                                    chosen.refusal = Some(error);
                                },
                                Ok(new_timestep) => {
                                    chosen.timestep = new_timestep;
                                    chosen.changed = true;
                                },
                            }
                        }
                    }
                }
                chosen
            },
        }
    }
}

/// One thing that can happen to a constraint, with the time at which it
/// happens.
pub enum ControllerEvent {
    /// The stepper reports whether physics are running slow.
    Signal { is_running_slow: bool, now: u64 },
    /// An attempt to grow the step.
    Increase { now: u64 },
    /// An attempt to shrink the step.
    Decrease { now: u64 },
    /// A frame chooses its step from the average cost of a step.
    Adjust { average_step_time: Option<u64>, time_scale: Ratio, now: u64 },
}

impl ControllerEvent {
    /// When the event happens.
    pub open spec fn time(self) -> u64 {
        match self {
            ControllerEvent::Signal { is_running_slow, now } => now,
            ControllerEvent::Increase { now } => now,
            ControllerEvent::Decrease { now } => now,
            ControllerEvent::Adjust { average_step_time, time_scale, now } => now,
        }
    }
}

impl ConstraintView {
    /// The state after `event`.
    pub open spec fn after_event(self, event: ControllerEvent) -> ConstraintView {
        match event {
            ControllerEvent::Signal { is_running_slow, now } => self.signalled(is_running_slow, now),
            ControllerEvent::Increase { now } => self.increased(now),
            ControllerEvent::Decrease { now } => self.decreased(),
            ControllerEvent::Adjust { average_step_time, time_scale, now } => self.adjusted(
                average_step_time,
                time_scale,
                now,
            ),
        }
    }

    /// The state after all of `events`, first to last.
    pub open spec fn after_events(self, events: Seq<ControllerEvent>) -> ConstraintView
        decreases events.len(),
    {
        if events.len() == 0 {
            self
        } else {
            self.after_events(events.drop_last()).after_event(events.last())
        }
    }

    /// Whether `event` moves the constraint to a larger step.
    pub open spec fn grows_at(self, event: ControllerEvent) -> bool {
        self.after_event(event).index > self.index
    }

    /// Physics are not known to have run slow before `time`.
    pub open spec fn quiet_before(self, time: u64) -> bool {
        match self.running_slow_since {
            None => true,
            Some(since) => since >= time,
        }
    }
}

/// Events that happen at `time` or later leave a constraint well formed,
/// leave its minimum slow time alone, and cannot make physics run slow
/// since before `time`.
proof fn lemma_events_keep_quiet(c: ConstraintView, events: Seq<ControllerEvent>, time: u64)
    requires
        c.wf(),
        c.quiet_before(time),
        forall|i: int| 0 <= i < events.len() ==> events[i].time() >= time,
    ensures
        c.after_events(events).wf(),
        c.after_events(events).quiet_before(time),
        c.after_events(events).minimum_slow_time == c.minimum_slow_time,
    decreases events.len(),
{
    if events.len() > 0 {
        lemma_events_keep_quiet(c, events.drop_last(), time);
        assert(events.last().time() >= time);
    }
}

/// Hysteresis: between two changes to a larger step lies at least the
/// minimum slow time, whatever happens in between, as long as the clock
/// does not run backwards past the first of them.
pub proof fn lemma_increases_keep_their_distance(
    c: ConstraintView,
    first: ControllerEvent,
    between: Seq<ControllerEvent>,
    second: ControllerEvent,
)
    requires
        c.wf(),
        forall|i: int| 0 <= i < between.len() ==> between[i].time() >= first.time(),
        second.time() >= first.time(),
        c.grows_at(first),
        c.after_event(first).after_events(between).grows_at(second),
    ensures
        second.time() - first.time() >= c.minimum_slow_time,
{
    let started = c.after_event(first);
    assert(started.running_slow_since is None);
    lemma_events_keep_quiet(started, between, first.time());
}

/// A strictly ascending list is fixed by its members: two such lists with
/// the same members are the same list. So the candidates of a new
/// constraint are the given ones, sorted, each once.
pub proof fn lemma_ascending_lists_with_same_members(a: Seq<u64>, b: Seq<u64>)
    requires
        strictly_ascending(a),
        strictly_ascending(b),
        forall|x: u64| a.contains(x) <==> b.contains(x),
    ensures
        a == b,
    decreases a.len(),
{
    if a.len() == 0 {
        if b.len() > 0 {
            assert(b.contains(b[0]));
        }
        assert(a =~= b);
    } else {
        assert(a.contains(a.last()));
        assert(b.contains(a.last()));
        assert(b.len() > 0);
        assert(b.contains(b.last()));
        assert(a.contains(b.last()));
        let i = choose|i: int| 0 <= i < b.len() && b[i] == a.last();
        let j = choose|j: int| 0 <= j < a.len() && a[j] == b.last();
        assert(a.last() == b.last()) by {
            if i < b.len() - 1 {
                assert(b[i] < b.last());
            }
            if j < a.len() - 1 {
                assert(a[j] < a.last());
            }
        }
        let a0 = a.drop_last();
        let b0 = b.drop_last();
        assert forall|x: u64| a0.contains(x) <==> b0.contains(x) by {
            if a0.contains(x) {
                let k = choose|k: int| 0 <= k < a0.len() && a0[k] == x;
                assert(a[k] == x);
                assert(a[k] < a.last());
                assert(a.contains(x));
                let m = choose|m: int| 0 <= m < b.len() && b[m] == x;
                assert(m < b.len() - 1);
                assert(b0[m] == x);
            }
            if b0.contains(x) {
                let k = choose|k: int| 0 <= k < b0.len() && b0[k] == x;
                assert(b[k] == x);
                assert(b[k] < b.last());
                assert(b.contains(x));
                let m = choose|m: int| 0 <= m < a.len() && a[m] == x;
                assert(m < a.len() - 1);
                assert(a0[m] == x);
            }
        }
        lemma_ascending_lists_with_same_members(a0, b0);
        assert(a =~= a0.push(a.last()));
        assert(b =~= b0.push(b.last()));
    }
}

} // verus!
