use ecs_physics::systems::physics_stepper::FramePlan;
use ecs_physics::systems::physics_stepper::PerformanceEstimator;
use ecs_physics::systems::physics_stepper::PhysicsStepperSystem;
use ecs_physics::time_step::Ratio;
use ecs_physics::time_step::TimeStep;
use ecs_physics::time_step::TimeStepChangeError;
use ecs_physics::time_step::TimeStepConstraint;

const SECOND: u64 = 1_000_000_000;
const ONE_120TH: u64 = 8_333_333;
const ONE_60TH: u64 = 16_666_667;

#[test]
fn estimator_starts_unknown() {
    let estimator = PerformanceEstimator::new();
    assert_eq!(estimator.current(), None);
}

#[test]
fn estimator_takes_first_measurement_as_it_is() {
    let mut estimator = PerformanceEstimator::new();
    estimator.observe(1000);
    assert_eq!(estimator.current(), Some(1000));
}

#[test]
fn estimator_moves_a_third_of_the_way() {
    let mut estimator = PerformanceEstimator::new();
    estimator.observe(1000);
    estimator.observe(2000);
    // 1000 + 0.33 * (2000 - 1000)
    assert_eq!(estimator.current(), Some(1330));
    estimator.observe(330);
    // 1330 - 0.33 * (1330 - 330)
    assert_eq!(estimator.current(), Some(1000));
    estimator.observe(1000);
    assert_eq!(estimator.current(), Some(1000));
}

#[test]
fn estimator_rounds_towards_old_average() {
    let mut estimator = PerformanceEstimator::new();
    estimator.observe(10);
    estimator.observe(12);
    // 0.33 * 2 is less than one.
    assert_eq!(estimator.current(), Some(10));
    estimator.observe(8);
    assert_eq!(estimator.current(), Some(10));
    estimator.observe(14);
    // 0.33 * 4 = 1.32
    assert_eq!(estimator.current(), Some(11));
}

#[test]
fn estimator_handles_largest_values() {
    let mut estimator = PerformanceEstimator::new();
    estimator.observe(0);
    estimator.observe(u64::MAX);
    assert_eq!(estimator.current(), Some(6087425544324152032));
    estimator.reset();
    estimator.observe(u64::MAX);
    estimator.observe(0);
    assert_eq!(estimator.current(), Some(12359318529385399583));
}

#[test]
fn estimator_reset_forgets() {
    let mut estimator = PerformanceEstimator::new();
    estimator.observe(5);
    estimator.reset();
    assert_eq!(estimator.current(), None);
    estimator.observe(7);
    assert_eq!(estimator.current(), Some(7));
}

#[test]
fn default_stepper() {
    let stepper = PhysicsStepperSystem::default();
    assert_eq!(stepper.current_timestep(), ONE_120TH);
    assert_eq!(stepper.time_accumulator(), 0);
    assert_eq!(stepper.average_step_time(), None);
}

#[test]
fn default_stepper_takes_at_most_eleven_steps() {
    let mut stepper = PhysicsStepperSystem::default();
    let plan = stepper.run(ONE_120TH, Ratio::one(), SECOND, 0);
    assert_eq!(plan.steps, 11);
    assert!(plan.running_slow);
}

#[test]
fn new_stepper_is_empty() {
    let stepper = PhysicsStepperSystem::new(TimeStep::Fixed(1000), 3);
    assert_eq!(stepper.current_timestep(), 1000);
    assert_eq!(stepper.time_accumulator(), 0);
    assert_eq!(stepper.average_step_time(), None);
}

#[test]
fn frame_takes_whole_steps_and_keeps_the_rest() {
    let mut stepper = PhysicsStepperSystem::new(TimeStep::Fixed(1000), 10);
    let plan = stepper.run(1000, Ratio::one(), 3500, 0);
    assert_eq!(
        plan,
        FramePlan {
            timestep: 1000,
            change_timestep: false,
            out_of_sync: false,
            refusal: None,
            steps: 3,
            running_slow: false,
        }
    );
    assert_eq!(stepper.time_accumulator(), 500);
    // The rest is carried into the next frame.
    let plan = stepper.run(1000, Ratio::one(), 500, 1);
    assert_eq!(plan.steps, 1);
    assert_eq!(stepper.time_accumulator(), 0);
}

#[test]
fn frame_shorter_than_a_step_takes_none() {
    let mut stepper = PhysicsStepperSystem::new(TimeStep::Fixed(1000), 10);
    let plan = stepper.run(1000, Ratio::one(), 999, 0);
    assert_eq!(plan.steps, 0);
    assert!(!plan.running_slow);
    assert_eq!(stepper.time_accumulator(), 999);
    let plan = stepper.run(1000, Ratio::one(), 0, 0);
    assert_eq!(plan.steps, 0);
    assert_eq!(stepper.time_accumulator(), 999);
}

#[test]
fn frame_takes_one_step_more_than_max_at_most() {
    let mut stepper = PhysicsStepperSystem::new(TimeStep::Fixed(1000), 10);
    let plan = stepper.run(1000, Ratio::one(), 10_999, 0);
    assert_eq!(plan.steps, 10);
    assert!(!plan.running_slow);
    assert_eq!(stepper.time_accumulator(), 999);

    let mut stepper = PhysicsStepperSystem::new(TimeStep::Fixed(1000), 10);
    let plan = stepper.run(1000, Ratio::one(), 11_000, 0);
    assert_eq!(plan.steps, 11);
    assert!(plan.running_slow);
    assert_eq!(stepper.time_accumulator(), 0);

    let mut stepper = PhysicsStepperSystem::new(TimeStep::Fixed(1000), 10);
    let plan = stepper.run(1000, Ratio::one(), 50_500, 0);
    assert_eq!(plan.steps, 11);
    assert!(plan.running_slow);
    // What was not simulated stays in the accumulator.
    assert_eq!(stepper.time_accumulator(), 39_500);
}

#[test]
fn zero_max_timesteps_allows_one_step() {
    let mut stepper = PhysicsStepperSystem::new(TimeStep::Fixed(1000), 0);
    let plan = stepper.run(1000, Ratio::one(), 5000, 0);
    assert_eq!(plan.steps, 1);
    assert!(plan.running_slow);
    assert_eq!(stepper.time_accumulator(), 4000);
}

#[test]
fn negative_max_timesteps_only_accumulates() {
    let mut stepper = PhysicsStepperSystem::new(TimeStep::Fixed(1000), -1);
    let plan = stepper.run(1000, Ratio::one(), 5000, 0);
    assert_eq!(plan.steps, 0);
    assert_eq!(stepper.time_accumulator(), 5000);
    let plan = stepper.run(1000, Ratio::one(), 5000, 0);
    assert_eq!(plan.steps, 0);
    assert_eq!(stepper.time_accumulator(), 10_000);
}

#[test]
fn largest_max_timesteps_is_no_trouble() {
    let mut stepper = PhysicsStepperSystem::new(TimeStep::Fixed(u64::MAX / 4), i32::MAX);
    let plan = stepper.run(u64::MAX / 4, Ratio::one(), u64::MAX, 0);
    assert_eq!(plan.steps, 4);
    assert_eq!(stepper.time_accumulator(), 3);
}

#[test]
fn simulation_out_of_sync_is_set_right() {
    let mut stepper = PhysicsStepperSystem::new(TimeStep::Fixed(1000), 10);
    stepper.record_step(70);
    let plan = stepper.run(2000, Ratio::one(), 0, 0);
    assert_eq!(plan.timestep, 1000);
    assert!(plan.out_of_sync);
    assert!(plan.change_timestep);
    // The average belongs to steps of another size.
    assert_eq!(stepper.average_step_time(), None);
}

#[test]
fn simulation_in_sync_keeps_the_average() {
    let mut stepper = PhysicsStepperSystem::new(TimeStep::Fixed(1000), 10);
    stepper.record_step(70);
    let plan = stepper.run(1000, Ratio::one(), 0, 0);
    assert!(!plan.out_of_sync);
    assert!(!plan.change_timestep);
    assert_eq!(stepper.average_step_time(), Some(70));
}

#[test]
fn record_step_updates_the_average() {
    let mut stepper = PhysicsStepperSystem::new(TimeStep::Fixed(1000), 10);
    stepper.record_step(100);
    assert_eq!(stepper.average_step_time(), Some(100));
    stepper.record_step(200);
    assert_eq!(stepper.average_step_time(), Some(133));
}

#[test]
fn changed_step_is_not_out_of_sync() {
    let mut c = TimeStepConstraint::new(vec![1000, 2000], 0);
    c.set_running_slow(true, 0);
    let mut stepper = PhysicsStepperSystem::new(TimeStep::SemiFixed(c), 10);
    stepper.record_step(1500);
    let plan = stepper.run(1000, Ratio::one(), 0, 0);
    assert_eq!(plan.timestep, 2000);
    assert!(plan.change_timestep);
    assert!(!plan.out_of_sync);
    assert_eq!(stepper.average_step_time(), None);
    assert_eq!(stepper.current_timestep(), 2000);
}

#[test]
fn step_shrinks_again_when_cost_drops() {
    let mut c = TimeStepConstraint::new(vec![1000, 2000], 0);
    c.set_running_slow(true, 0);
    let mut stepper = PhysicsStepperSystem::new(TimeStep::SemiFixed(c), 10);
    stepper.record_step(1500);
    let plan = stepper.run(1000, Ratio::one(), 0, 0);
    assert_eq!(plan.timestep, 2000);
    stepper.record_step(900);
    let plan = stepper.run(2000, Ratio::one(), 0, 1);
    assert_eq!(plan.timestep, 1000);
    assert!(plan.change_timestep);
    assert_eq!(plan.refusal, None);
    assert_eq!(stepper.average_step_time(), None);
}

#[test]
fn sustained_overload_grows_the_step_after_the_minimum_slow_time() {
    let constraint = TimeStepConstraint::new(vec![ONE_120TH, ONE_60TH], SECOND);
    let mut stepper = PhysicsStepperSystem::new(TimeStep::SemiFixed(constraint), 10);
    let frame = SECOND / 10;
    let mut world_timestep = ONE_120TH;
    for k in 0..11u64 {
        let now = k * frame;
        let plan = stepper.run(world_timestep, Ratio::one(), frame, now);
        assert!(plan.running_slow, "frame {}", k);
        assert!(plan.steps > 10, "frame {}", k);
        if k == 0 {
            // Nothing was measured yet, so no change is wanted.
            assert_eq!(plan.refusal, None);
            assert_eq!(plan.timestep, ONE_120TH);
        } else if k < 10 {
            assert_eq!(plan.timestep, ONE_120TH, "frame {}", k);
            assert!(!plan.change_timestep, "frame {}", k);
            assert_eq!(
                plan.refusal,
                Some(TimeStepChangeError::MinimumTimeNotReached(SECOND - k * frame)),
                "frame {}",
                k
            );
            assert!(stepper.average_step_time().is_some());
        } else {
            assert_eq!(plan.timestep, ONE_60TH);
            assert!(plan.change_timestep);
            assert!(!plan.out_of_sync);
            assert_eq!(plan.refusal, None);
            assert_eq!(stepper.average_step_time(), None);
            world_timestep = plan.timestep;
        }
        for _ in 0..plan.steps {
            stepper.record_step(20_000_000);
        }
    }
    assert_eq!(world_timestep, ONE_60TH);
    assert_eq!(stepper.current_timestep(), ONE_60TH);
}

#[test]
fn sustained_overload_never_changes_the_step_twice_within_the_minimum_slow_time() {
    let constraint = TimeStepConstraint::new(vec![100, 200, 400, 800], 1000);
    let mut stepper = PhysicsStepperSystem::new(TimeStep::SemiFixed(constraint), 2);
    let mut world_timestep: u64 = 100;
    let mut last_change: Option<u64> = None;
    let mut changes = 0;
    for k in 0..200u64 {
        let now = k * 50;
        let plan = stepper.run(world_timestep, Ratio::one(), 5000, now);
        if plan.timestep != world_timestep {
            if let Some(earlier) = last_change {
                assert!(now - earlier >= 1000);
            }
            last_change = Some(now);
            changes += 1;
            world_timestep = plan.timestep;
        }
        for _ in 0..plan.steps {
            stepper.record_step(10_000);
        }
    }
    assert_eq!(changes, 3);
    assert_eq!(world_timestep, 800);
}
