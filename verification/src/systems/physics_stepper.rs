//! Turns the time that a frame took into a number of simulation steps of
//! fixed size, and keeps a moving average of what one step costs.

use crate::time_step::Ratio;
use crate::time_step::TimeStep;
use crate::time_step::TimeStepChangeError;
use crate::time_step::TimeStepView;
use crate::time_step::DEFAULT_TIMESTEP;
use vstd::prelude::*;

verus! {

/// Falloff factor for calculating the moving average step time, in
/// hundredths.
pub const AVERAGE_STEP_TIME_FALLOFF: u64 = 33;

/// The exponentially weighted moving average after a step that took
/// `duration`: the first measurement is taken as it is, a later one moves
/// the average towards it by 33 hundredths of their distance, rounded
/// towards the old average.
pub open spec fn moving_average(average: Option<u64>, duration: u64) -> u64 {
    match average {
        None => duration,
        Some(average) => {
            if duration >= average {
                (average + (AVERAGE_STEP_TIME_FALLOFF * (duration - average)) / 100) as u64
            } else {
                (average - (AVERAGE_STEP_TIME_FALLOFF * (average - duration)) / 100) as u64
            }
        },
    }
}

/// The new average lies between the old one and the measurement.
pub proof fn lemma_moving_average_between(average: u64, duration: u64)
    ensures
        duration >= average ==> average <= moving_average(Some(average), duration) <= duration,
        duration <= average ==> duration <= moving_average(Some(average), duration) <= average,
{
}

/// The part of `distance` by which the average moves.
fn falloff_share(distance: u64) -> (share: u64)
    ensures
        share == (AVERAGE_STEP_TIME_FALLOFF * distance) / 100,
        share <= distance,
{
    assert(AVERAGE_STEP_TIME_FALLOFF * distance <= 33 * 0xffff_ffff_ffff_ffff) by (nonlinear_arith)
        requires
            AVERAGE_STEP_TIME_FALLOFF == 33,
            distance <= 0xffff_ffff_ffff_ffff,
    ;
    let scaled: u128 = (AVERAGE_STEP_TIME_FALLOFF as u128) * (distance as u128);
    (scaled / 100) as u64
}

/// Estimates what one simulation step costs in real time.
pub struct PerformanceEstimator {
    /// Moving average of the measured durations, unknown at first.
    average: Option<u64>,
}

impl View for PerformanceEstimator {
    type V = Option<u64>;

    closed spec fn view(&self) -> Option<u64> {
        self.average
    }
}

impl PerformanceEstimator {
    /// An estimator that knows nothing yet.
    pub fn new() -> (estimator: Self)
        ensures
            estimator@ is None,
    {
        PerformanceEstimator { average: None }
    }

    /// Folds the duration of one more step into the average.
    pub fn observe(&mut self, duration: u64)
        ensures
            final(self)@ == Some(moving_average(old(self)@, duration)),
    {
        let updated: u64 = match self.average {
            None => duration,
            Some(average) => {
                if duration >= average {
                    average + falloff_share(duration - average)
                } else {
                    average - falloff_share(average - duration)
                }
            },
        };
        self.average = Some(updated);
    }

    /// Forgets the average: after a change of the step size it says nothing.
    pub fn reset(&mut self)
        ensures
            final(self)@ is None,
    {
        self.average = None;
    }

    /// The average duration of a step, if one was measured since the last
    /// reset.
    pub fn current(&self) -> (average: Option<u64>)
        ensures
            average == self@,
    {
        self.average
    }
}

/// The most steps that one frame may take: one more than `max_timesteps`,
/// and none where that is negative.
pub open spec fn step_limit(max_timesteps: i32) -> int {
    if max_timesteps < 0 {
        0
    } else {
        max_timesteps + 1
    }
}

/// The number of steps of size `timestep` that a frame takes out of the
/// accumulated time: as many whole steps as fit, but no more than the limit.
pub open spec fn steps_due(accumulated: int, timestep: int, max_timesteps: i32) -> int {
    let whole = accumulated / timestep;
    if whole < step_limit(max_timesteps) {
        whole
    } else {
        step_limit(max_timesteps)
    }
}

/// What the stepper asks of the simulation in one frame.
#[derive(Clone, Copy, Debug, PartialEq, Eq, Structural)]
pub struct FramePlan {
    /// The size of each step of this frame.
    pub timestep: u64,
    /// Whether the simulation has to be told that size before stepping.
    pub change_timestep: bool,
    /// Whether the simulation's own step size differed from the intended
    /// one although the stepper had not changed it.
    pub out_of_sync: bool,
    /// Why a wanted change of the step size was refused, if one was.
    pub refusal: Option<TimeStepChangeError>,
    /// How many steps to simulate.
    pub steps: u32,
    /// Whether more steps are taken than `max_timesteps`.
    pub running_slow: bool,
}

/// What a [`PhysicsStepperSystem`] holds, as mathematical values.
pub struct StepperView {
    /// The step size to simulate with, fixed or chosen among candidates.
    pub intended_timestep: TimeStepView,
    /// The number of steps that a frame may take before it counts as
    /// running slow; one more is taken, and then no more.
    pub max_timesteps: i32,
    /// Real time that has passed and was not simulated yet.
    pub time_accumulator: u64,
    /// Moving average of the real time that a step took, if steps were
    /// measured since the simulation last got another step size.
    pub average_step_time: Option<u64>,
}

impl StepperView {
    /// The intended step is well formed.
    pub open spec fn wf(self) -> bool {
        self.intended_timestep.wf()
    }

    /// The plan for a frame that took `delta` and begins at time `now`,
    /// while the simulation is set to `world_timestep`.
    pub open spec fn frame_plan(self, world_timestep: u64, time_scale: Ratio, delta: u64, now: u64) -> FramePlan {
        let timestep = self.intended_timestep.adjusted(self.average_step_time, time_scale, now).current();
        let changed = timestep != self.intended_timestep.current();
        let out_of_sync = world_timestep != timestep && !changed;
        let steps = steps_due(self.time_accumulator + delta, timestep as int, self.max_timesteps);
        FramePlan {
            timestep,
            change_timestep: changed || out_of_sync,
            out_of_sync,
            refusal: self.intended_timestep.adjustment_refusal(self.average_step_time, time_scale, now),
            steps: steps as u32,
            running_slow: steps > self.max_timesteps,
        }
    }

    /// The state after that frame was planned: the step size is adjusted and
    /// told whether physics run slow, the time of the planned steps is taken
    /// out of the accumulator, and the average is forgotten where the
    /// simulation gets another step size.
    pub open spec fn after_frame(self, world_timestep: u64, time_scale: Ratio, delta: u64, now: u64) -> StepperView {
        let plan = self.frame_plan(world_timestep, time_scale, delta, now);
        StepperView {
            intended_timestep: self.intended_timestep.adjusted(self.average_step_time, time_scale, now).signalled(
                plan.running_slow,
                now,
            ),
            max_timesteps: self.max_timesteps,
            time_accumulator: (self.time_accumulator + delta - plan.steps * plan.timestep) as u64,
            average_step_time: if plan.change_timestep {
                None
            } else {
                self.average_step_time
            },
        }
    }
}

/// Simulates a step of the physics world.
pub struct PhysicsStepperSystem {
    intended_timestep: TimeStep,
    max_timesteps: i32,
    time_accumulator: u64,
    avg_step_time: PerformanceEstimator,
}

impl View for PhysicsStepperSystem {
    type V = StepperView;

    closed spec fn view(&self) -> StepperView {
        StepperView {
            intended_timestep: self.intended_timestep@,
            max_timesteps: self.max_timesteps,
            time_accumulator: self.time_accumulator,
            average_step_time: self.avg_step_time@,
        }
    }
}

impl Default for PhysicsStepperSystem {
    fn default() -> (stepper: Self)
        ensures
            stepper.wf(),
            stepper@ == (StepperView {
                intended_timestep: TimeStepView::Fixed(DEFAULT_TIMESTEP),
                max_timesteps: 10,
                time_accumulator: 0,
                average_step_time: None,
            }),
    {
        PhysicsStepperSystem {
            intended_timestep: TimeStep::Fixed(DEFAULT_TIMESTEP),
            max_timesteps: 10,
            time_accumulator: 0,
            avg_step_time: PerformanceEstimator::new(),
        }
    }
}

/// Takes whole steps out of `accumulated`, one at a time, while the limit
/// allows one more and a whole step is left.
fn take_steps(accumulated: u64, timestep: u64, max_timesteps: i32) -> (taken: (u32, u64))
    requires
        timestep > 0,
    ensures
        taken.0 == steps_due(accumulated as int, timestep as int, max_timesteps),
        taken.1 == accumulated - taken.0 * timestep,
        taken.0 < step_limit(max_timesteps) ==> taken.1 < timestep,
{
    let mut steps: u32 = 0;
    let mut rest: u64 = accumulated;
    while (steps as i64) <= (max_timesteps as i64) && rest >= timestep
        invariant
            timestep > 0,
            steps <= step_limit(max_timesteps),
            rest + steps * timestep == accumulated,
        decreases rest,
    {
        assert((steps + 1) * timestep == steps * timestep + timestep) by (nonlinear_arith);
        rest -= timestep;
        steps += 1;
    }
    proof {
        lemma_steps_due(accumulated as int, timestep as int, max_timesteps, steps as int, rest as int);
    }
    (steps, rest)
}

/// A count of steps that leaves less than a step, or that has reached the
/// limit, is the number of steps due.
proof fn lemma_steps_due(accumulated: int, timestep: int, max_timesteps: i32, steps: int, rest: int)
    requires
        timestep > 0,
        0 <= rest,
        0 <= steps <= step_limit(max_timesteps),
        rest + steps * timestep == accumulated,
        steps == step_limit(max_timesteps) || rest < timestep,
    ensures
        steps == steps_due(accumulated, timestep, max_timesteps),
{
    if rest < timestep {
        vstd::arithmetic::div_mod::lemma_fundamental_div_mod_converse(accumulated, timestep, steps, rest);
    } else {
        assert(accumulated / timestep >= steps) by (nonlinear_arith)
            requires
                timestep > 0,
                0 <= rest,
                0 <= steps,
                rest + steps * timestep == accumulated,
        ;
    }
}

impl PhysicsStepperSystem {
    /// See [`StepperView::wf`].
    pub open spec fn wf(&self) -> bool {
        self@.wf()
    }

    /// A stepper that aims at `intended_timestep` and takes more than
    /// `max_timesteps` steps in no frame but by one. Nothing is accumulated
    /// and no step was measured yet.
    pub fn new(intended_timestep: TimeStep, max_timesteps: i32) -> (stepper: Self)
        requires
            intended_timestep.wf(),
        ensures
            stepper.wf(),
            stepper@ == (StepperView {
                intended_timestep: intended_timestep@,
                max_timesteps,
                time_accumulator: 0,
                average_step_time: None,
            }),
    {
        PhysicsStepperSystem {
            intended_timestep,
            max_timesteps,
            time_accumulator: 0,
            avg_step_time: PerformanceEstimator::new(),
        }
    }

    /// Plans the frame that took `delta` of real time and begins at time
    /// `now`, while the simulation is set to steps of `world_timestep`.
    ///
    /// The step size is chosen first. Where the simulation's own step size
    /// differs from it without the stepper having changed it, the intended
    /// one wins. Where the simulation gets another step size, the average
    /// cost of a step is forgotten. Then `delta` is added to the accumulator
    /// and whole steps are taken out of it while the count has not passed
    /// `max_timesteps`. A frame that takes more steps than `max_timesteps`
    /// counts as running slow.
    pub fn run(&mut self, world_timestep: u64, time_scale: Ratio, delta: u64, now: u64) -> (plan: FramePlan)
        requires
            old(self).wf(),
            time_scale.wf(),
            old(self)@.time_accumulator + delta <= u64::MAX,
        ensures
            final(self).wf(),
            plan == old(self)@.frame_plan(world_timestep, time_scale, delta, now),
            final(self)@ == old(self)@.after_frame(world_timestep, time_scale, delta, now),
            plan.steps == steps_due(old(self)@.time_accumulator + delta, plan.timestep as int, old(self)@.max_timesteps),
            final(self)@.time_accumulator == old(self)@.time_accumulator + delta - plan.steps * plan.timestep,
            plan.steps < step_limit(old(self)@.max_timesteps) ==> final(self)@.time_accumulator < plan.timestep,
    {
        let chosen = self.intended_timestep.resolve(self.avg_step_time.current(), time_scale, now);
        let timestep = chosen.timestep;
        let mut change_timestep = chosen.changed;
        let mut out_of_sync = false;
        if world_timestep != timestep && !change_timestep {
            out_of_sync = true;
            change_timestep = true;
        }
        if change_timestep {
            // The average says nothing about steps of another size.
            self.avg_step_time.reset();
        }
        self.time_accumulator += delta;
        let (steps, rest) = take_steps(self.time_accumulator, timestep, self.max_timesteps);
        self.time_accumulator = rest;
        let running_slow = (steps as i64) > (self.max_timesteps as i64);
        match &mut self.intended_timestep {
            TimeStep::Fixed(_) => {},
            TimeStep::SemiFixed(constraint) => {
                constraint.set_running_slow(running_slow, now);
            },
        }
        FramePlan { timestep, change_timestep, out_of_sync, refusal: chosen.refusal, steps, running_slow }
    }

    /// Folds the real time that one simulated step took into the average.
    pub fn record_step(&mut self, physics_time: u64)
        ensures
            final(self)@ == (StepperView {
                average_step_time: Some(moving_average(old(self)@.average_step_time, physics_time)),
                ..old(self)@
            }),
    {
        self.avg_step_time.observe(physics_time);
    }

    /// Real time that was not simulated yet.
    pub fn time_accumulator(&self) -> (accumulated: u64)
        ensures
            accumulated == self@.time_accumulator,
    {
        self.time_accumulator
    }

    /// Average real time that a simulation step took, if known.
    pub fn average_step_time(&self) -> (average: Option<u64>)
        ensures
            average == self@.average_step_time,
    {
        self.avg_step_time.current()
    }

    /// The step size that the next frame starts from.
    pub fn current_timestep(&self) -> (step: u64)
        requires
            self.wf(),
        ensures
            step == self@.intended_timestep.current(),
    {
        self.intended_timestep.current_timestep()
    }
}

/// `value`, moved into the range from `low` to `high` where it is outside.
pub open spec fn clamped(value: int, low: int, high: int) -> int {
    if value < low {
        low
    } else if value > high {
        high
    } else {
        value
    }
}

/// A frame with a fixed step, in which no more whole steps fit than
/// `max_timesteps`: the number of steps taken is the number of whole steps
/// that fit into the accumulated time, kept between zero and
/// `max_timesteps`; the accumulator is left with the accumulated time less
/// the time of those steps, which is less than one step.
pub proof fn lemma_fixed_step_frame(
    stepper: StepperView,
    step: u64,
    world_timestep: u64,
    time_scale: Ratio,
    delta: u64,
    now: u64,
)
    requires
        step > 0,
        stepper.intended_timestep == TimeStepView::Fixed(step),
        stepper.time_accumulator + delta <= u64::MAX,
        (stepper.time_accumulator + delta) / (step as int) <= stepper.max_timesteps,
    ensures
        ({
            let plan = stepper.frame_plan(world_timestep, time_scale, delta, now);
            let after = stepper.after_frame(world_timestep, time_scale, delta, now);
            &&& plan.timestep == step
            &&& plan.steps == clamped(
                (stepper.time_accumulator + delta) / (step as int),
                0,
                stepper.max_timesteps as int,
            )
            &&& after.time_accumulator == stepper.time_accumulator + delta - plan.steps * step
            &&& plan.steps < stepper.max_timesteps + 1
            &&& after.time_accumulator < step
        }),
{
    let accumulated = stepper.time_accumulator + delta;
    vstd::arithmetic::div_mod::lemma_fundamental_div_mod(accumulated, step as int);
    vstd::arithmetic::div_mod::lemma_mod_bound(accumulated, step as int);
    vstd::arithmetic::div_mod::lemma_div_pos_is_pos(accumulated, step as int);
    assert((step as int) * (accumulated / (step as int)) == (accumulated / (step as int)) * step)
        by (nonlinear_arith);
}

} // verus!
