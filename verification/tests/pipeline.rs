use thrust_core::info_enactors::{apply_thrust, save_thrust_stages};
use thrust_core::info_gathering::{
    calculate_relative_velocity_magnitudes, get_base_normal_vectors,
};
use thrust_core::info_processors::{
    flag_normal_vectors, get_force_factors, get_relative_strengths, max_velocity_magnitudes,
    process_inputs, ANGULAR_FORCE_FACTOR, ANGULAR_MAX_SPEED, LINEAR_FORCE_FACTOR,
    LINEAR_MAX_SPEED,
};
use thrust_core::player::{
    ControllablePlayer, ExternalForce, PlayerInputs, PlayerMovementQuery, Transform, Velocity,
};
use thrust_core::stages::{Axis, FinalVectors, Fraction, Thrust, ThrustReaction};
use thrust_core::thrust::move_player;
use thrust_core::vector::{Vector3, UNIT};

const STEP: u32 = 15_625;

fn upright() -> Transform {
    Transform {
        forward: Vector3::new(0, 0, -1000),
        up: Vector3::new(0, 1000, 0),
        right: Vector3::new(1000, 0, 0),
    }
}

fn at_rest(id: u64) -> PlayerMovementQuery {
    PlayerMovementQuery {
        player: ControllablePlayer::new(id),
        external_force: ExternalForce { force: Vector3::zero(), torque: Vector3::zero() },
        transform: upright(),
        velocity: Velocity { linear: Vector3::zero(), angular: Vector3::zero() },
    }
}

fn moving_forward(id: u64, speed: i64) -> PlayerMovementQuery {
    let mut query = at_rest(id);
    query.velocity.linear = Vector3::new(0, 0, -speed);
    query
}

#[test]
fn vector_operations() {
    let a = Vector3::new(1, -2, 3);
    let b = Vector3::new(4, 5, -6);
    assert_eq!(a.plus(b), Vector3::new(5, 3, -3));
    assert_eq!(a.scaled(-3), Vector3::new(-3, 6, -9));
    assert_eq!(a.negated(), Vector3::new(-1, 2, -3));
    assert_eq!(a.dot(b), 4 - 10 - 18);
    assert_eq!(Vector3::zero(), Vector3::new(0, 0, 0));
}

#[test]
fn normals_follow_the_orientation() {
    let normals = get_base_normal_vectors(&upright());
    assert_eq!(normals.forward, Vector3::new(0, 0, -1000));
    assert_eq!(normals.up, Vector3::new(0, 1000, 0));
    assert_eq!(normals.right, Vector3::new(1000, 0, 0));
    assert_eq!(normals.turn_right, Vector3::new(0, -1000, 0));
    assert_eq!(normals.tilt_up, Vector3::new(1000, 0, 0));
    assert_eq!(normals.roll_right, Vector3::new(0, 0, -1000));
}

#[test]
fn velocity_is_projected_on_each_axis() {
    let normals = get_base_normal_vectors(&upright());
    let velocity = Velocity {
        linear: Vector3::new(2_000, 3_000, -5_000),
        angular: Vector3::new(70, -80, 90),
    };
    let magnitudes = calculate_relative_velocity_magnitudes(&normals, &velocity);
    assert_eq!(magnitudes.forward, 5_000_000);
    assert_eq!(magnitudes.up, 3_000_000);
    assert_eq!(magnitudes.right, 2_000_000);
    assert_eq!(magnitudes.turn_right, 80_000);
    assert_eq!(magnitudes.tilt_up, 70_000);
    assert_eq!(magnitudes.roll_right, -90_000);
}

#[test]
fn inputs_are_classified_axis_by_axis() {
    let inputs = PlayerInputs {
        forward: 1,
        up: -1,
        right: 0,
        turn_right: 0,
        tilt_up: 5,
        roll_right: -128,
        brake: false,
    };
    let mut flags = Thrust::uniform(false);
    flags.right = true;
    let mut residuals = Thrust::uniform(0);
    residuals.right = 42;
    residuals.forward = 17;
    let (reactions, factors) = process_inputs(&inputs, &flags, residuals);
    assert_eq!(reactions.forward, ThrustReaction::Accelerate { positive: true });
    assert_eq!(reactions.up, ThrustReaction::Accelerate { positive: false });
    assert_eq!(reactions.right, ThrustReaction::Brake { residual: 42 });
    assert_eq!(reactions.turn_right, ThrustReaction::Idle);
    assert_eq!(reactions.tilt_up, ThrustReaction::Accelerate { positive: true });
    assert_eq!(reactions.roll_right, ThrustReaction::Accelerate { positive: false });
    assert_eq!(factors, get_force_factors());
}

#[test]
fn the_brake_overrides_every_request() {
    let inputs = PlayerInputs {
        forward: 1,
        up: 0,
        right: -1,
        turn_right: 0,
        tilt_up: 0,
        roll_right: 0,
        brake: true,
    };
    let flags = Thrust::uniform(false);
    let residuals = Thrust::uniform(-9);
    let (reactions, _) = process_inputs(&inputs, &flags, residuals);
    assert_eq!(reactions, Thrust::uniform(ThrustReaction::Brake { residual: -9 }));
}

#[test]
fn the_factors_and_speeds_are_the_constants() {
    let factors = get_force_factors();
    assert_eq!(factors.forward, LINEAR_FORCE_FACTOR);
    assert_eq!(factors.up, LINEAR_FORCE_FACTOR);
    assert_eq!(factors.right, LINEAR_FORCE_FACTOR);
    assert_eq!(factors.turn_right, ANGULAR_FORCE_FACTOR);
    assert_eq!(factors.tilt_up, ANGULAR_FORCE_FACTOR);
    assert_eq!(factors.roll_right, ANGULAR_FORCE_FACTOR);
    let max = max_velocity_magnitudes();
    assert_eq!(max.forward, LINEAR_MAX_SPEED);
    assert_eq!(max.up, LINEAR_MAX_SPEED);
    assert_eq!(max.right, LINEAR_MAX_SPEED);
    assert_eq!(max.turn_right, ANGULAR_MAX_SPEED);
    assert_eq!(max.tilt_up, ANGULAR_MAX_SPEED);
    assert_eq!(max.roll_right, ANGULAR_MAX_SPEED);
    assert_eq!(LINEAR_FORCE_FACTOR, 2_000);
    assert_eq!(ANGULAR_FORCE_FACTOR, 500);
    assert_eq!(LINEAR_MAX_SPEED, 50_000);
    assert_eq!(ANGULAR_MAX_SPEED, 5_000);
}

#[test]
fn directions_carry_the_sign_of_the_reaction() {
    let normals = get_base_normal_vectors(&upright());
    let mut reactions = Thrust::uniform(ThrustReaction::Idle);
    reactions.forward = ThrustReaction::Accelerate { positive: true };
    reactions.up = ThrustReaction::Accelerate { positive: false };
    reactions.right = ThrustReaction::Brake { residual: 12 };
    reactions.turn_right = ThrustReaction::Brake { residual: -12 };
    reactions.tilt_up = ThrustReaction::Brake { residual: 0 };
    let flagged = flag_normal_vectors(&reactions, &normals);
    assert_eq!(flagged.forward.direction, Vector3::new(0, 0, -1000));
    assert_eq!(flagged.up.direction, Vector3::new(0, -1000, 0));
    assert_eq!(flagged.right.direction, Vector3::new(-1000, 0, 0));
    assert_eq!(flagged.turn_right.direction, Vector3::new(0, -1000, 0));
    assert_eq!(flagged.tilt_up.direction, Vector3::zero());
    assert_eq!(flagged.roll_right.direction, Vector3::zero());
    assert_eq!(flagged.forward.reaction, reactions.forward);
    assert_eq!(flagged.roll_right.reaction, ThrustReaction::Idle);
    assert_eq!(ThrustReaction::Brake { residual: 12 }.signum(), -1);
    assert_eq!(ThrustReaction::Brake { residual: -12 }.signum(), 1);
    assert_eq!(ThrustReaction::Brake { residual: 0 }.signum(), 0);
    assert_eq!(ThrustReaction::Accelerate { positive: false }.signum(), -1);
    assert_eq!(ThrustReaction::Idle.signum(), 0);
}

fn forward_strength(speed: i64, request: i8) -> i64 {
    let mut query = moving_forward(1, speed);
    let mut inputs = PlayerInputs::none();
    inputs.forward = request;
    move_player(&mut query, &inputs, STEP);
    query.player.relative_strength.forward
}

#[test]
fn accelerating_is_full_up_to_the_greatest_speed() {
    assert_eq!(forward_strength(0, 1), 1000);
    assert_eq!(forward_strength(49_999, 1), 1000);
    assert_eq!(forward_strength(50_000, 1), 1000);
    assert_eq!(forward_strength(-80_000, 1), 1000);
    assert_eq!(forward_strength(0, -1), -1000);
    assert_eq!(forward_strength(80_000, -1), -1000);
}

#[test]
fn accelerating_fades_beyond_the_greatest_speed() {
    assert_eq!(forward_strength(50_001, 1), 999);
    assert_eq!(forward_strength(62_500, 1), 750);
    assert_eq!(forward_strength(75_000, 1), 500);
    assert_eq!(forward_strength(99_999, 1), 0);
    assert_eq!(forward_strength(100_000, 1), 0);
    assert_eq!(forward_strength(1_000_000_000, 1), 0);
    assert_eq!(forward_strength(-75_000, -1), -500);
    assert_eq!(forward_strength(-100_000, -1), 0);
}

#[test]
fn braking_opposes_the_motion_in_proportion() {
    assert_eq!(forward_strength(5_000, 0), -100);
    assert_eq!(forward_strength(10_000, 0), -200);
    assert_eq!(forward_strength(-5_000, 0), 100);
    assert_eq!(forward_strength(5_049, 0), -100);
    assert_eq!(forward_strength(5_050, 0), -101);
    assert_eq!(forward_strength(50, 0), -1);
    assert_eq!(forward_strength(-50, 0), 1);
    assert_eq!(forward_strength(49_999, 0), -999);
    assert_eq!(forward_strength(50_000, 0), -1000);
    assert_eq!(forward_strength(1_000_000_000, 0), -1000);
    assert_eq!(forward_strength(-1_000_000_000, 0), 1000);
}

#[test]
fn an_axis_that_hardly_moves_is_at_rest() {
    assert_eq!(forward_strength(0, 0), 0);
    assert_eq!(forward_strength(1, 0), 0);
    assert_eq!(forward_strength(-1, 0), 0);
    assert_eq!(forward_strength(49, 0), 0);
    assert_eq!(forward_strength(-49, 0), 0);
}

#[test]
fn braking_does_not_carry_an_axis_through_rest() {
    // a body of mass one, for a tick of 15625 microseconds
    let (factor, dt, mass, max_speed) = (2_000i128, 15_625i128, 1i128, 50_000i128);
    assert!(factor * dt <= 1000 * mass * max_speed);
    for speed in [0i64, 1, 49, 50, 51, 4_999, 5_000, 49_999, 50_000, 1_000_000] {
        let share = -forward_strength(speed, 0) as i128;
        assert!(share >= 0);
        assert!(share * factor * dt <= 1000 * mass * (speed as i128 * 1000));
    }
}

#[test]
fn braking_a_huge_residual_is_full() {
    let mut reactions = Thrust::uniform(ThrustReaction::Idle);
    reactions.forward = ThrustReaction::Brake { residual: i64::MIN };
    reactions.up = ThrustReaction::Brake { residual: i64::MAX };
    let normals = get_base_normal_vectors(&upright());
    let flagged = flag_normal_vectors(&reactions, &normals);
    let velocity = Velocity { linear: Vector3::zero(), angular: Vector3::zero() };
    let strengths = get_relative_strengths(&flagged, &max_velocity_magnitudes(), &velocity);
    assert_eq!(strengths.forward, UNIT);
    assert_eq!(strengths.up, -UNIT);
    assert_eq!(strengths.right, 0);
}

#[test]
fn an_axis_without_request_and_without_friction_idles() {
    let mut query = moving_forward(1, 30_000);
    query.velocity.angular = Vector3::new(400, 500, 600);
    query.player.artificial_friction_flags = Thrust::uniform(false);
    move_player(&mut query, &PlayerInputs::none(), STEP);
    assert_eq!(query.player.thrust_responses, Thrust::uniform(ThrustReaction::Idle));
    assert_eq!(query.player.relative_strength, Thrust::uniform(0));
    assert_eq!(query.external_force.force, Vector3::zero());
    assert_eq!(query.external_force.torque, Vector3::zero());
}

#[test]
fn braking_one_axis_leaves_the_others_alone() {
    let mut query = at_rest(1);
    query.velocity.linear = Vector3::new(20_000, 0, -5_000);
    query.player.artificial_friction_flags = Thrust::uniform(false);
    query.player.artificial_friction_flags.forward = true;
    let mut inputs = PlayerInputs::none();
    inputs.up = 1;
    move_player(&mut query, &inputs, STEP);
    assert_eq!(query.player.relative_strength.forward, -100);
    assert_eq!(query.player.relative_strength.up, 1000);
    assert_eq!(query.player.relative_strength.right, 0);
    assert_eq!(query.player.thrust_responses.right, ThrustReaction::Idle);
    assert_eq!(
        query.player.thrust_responses.forward,
        ThrustReaction::Brake { residual: 5_000_000 }
    );
}

#[test]
fn combining_weights_each_direction() {
    let normals = get_base_normal_vectors(&upright());
    let mut strengths = Thrust::uniform(0);
    strengths.forward = 1000;
    strengths.up = -500;
    strengths.roll_right = 250;
    let factors = get_force_factors();
    let reactions = Thrust::uniform(ThrustReaction::Idle);
    let mut player = ControllablePlayer::new(3);
    let flags = player.artificial_friction_flags;
    let finals = save_thrust_stages(strengths, normals, factors, reactions, &mut player);
    assert_eq!(finals.forward, Vector3::new(0, 0, -2_000_000_000));
    assert_eq!(finals.up, Vector3::new(0, -1_000_000_000, 0));
    assert_eq!(finals.right, Vector3::zero());
    assert_eq!(finals.turn_right, Vector3::zero());
    assert_eq!(finals.tilt_up, Vector3::zero());
    assert_eq!(finals.roll_right, Vector3::new(0, 0, -125_000_000));
    assert_eq!(player.relative_strength, strengths);
    assert_eq!(player.thrust_responses, reactions);
    assert_eq!(player.network_id, 3);
    assert_eq!(player.artificial_friction_flags, flags);
}

#[test]
fn the_sum_over_the_axes_does_not_depend_on_their_order() {
    let a = Vector3::new(3, -4, 5).scaled(7).scaled(11);
    let b = Vector3::new(-1, 2, 9).scaled(-13).scaled(2);
    let c = Vector3::new(8, 0, -6).scaled(1).scaled(-5);
    let sum = a.plus(b).plus(c);
    assert_eq!(sum, a.plus(c).plus(b));
    assert_eq!(sum, b.plus(a).plus(c));
    assert_eq!(sum, c.plus(b).plus(a));
    assert_eq!(sum, a.plus(b.plus(c)));
    assert_eq!(a, Vector3::new(3, -4, 5).scaled(77));
    assert_eq!(a, Vector3::new(3, -4, 5).scaled(11).scaled(7));

    let finals: Thrust<FinalVectors> = Thrust {
        forward: a,
        up: b,
        right: c,
        turn_right: c,
        tilt_up: a,
        roll_right: b,
    };
    let mut one = ExternalForce { force: Vector3::zero(), torque: Vector3::zero() };
    apply_thrust(finals, &mut one, 1);
    assert_eq!(one.force, sum);
    assert_eq!(one.torque, sum);
}

#[test]
fn thrust_is_added_for_the_length_of_the_tick() {
    let finals: Thrust<FinalVectors> = Thrust {
        forward: Vector3::new(0, 0, -2_000_000_000),
        up: Vector3::new(0, 1_000, 0),
        right: Vector3::new(-7, 0, 0),
        turn_right: Vector3::new(0, 5, 0),
        tilt_up: Vector3::new(1, 1, 1),
        roll_right: Vector3::zero(),
    };
    let mut external = ExternalForce {
        force: Vector3::new(10, 20, 30),
        torque: Vector3::new(-1, -2, -3),
    };
    apply_thrust(finals, &mut external, STEP);
    assert_eq!(
        external.force,
        Vector3::new(10 - 7 * 15_625, 20 + 1_000 * 15_625, 30 - 31_250_000_000_000)
    );
    assert_eq!(external.torque, Vector3::new(-1 + 15_625, -2 + 6 * 15_625, -3 + 15_625));
    apply_thrust(finals, &mut external, 0);
    assert_eq!(external.torque, Vector3::new(15_624, 93_748, 15_622));
}

#[test]
fn an_accumulator_that_is_full_stays_full() {
    let finals: Thrust<FinalVectors> = Thrust {
        forward: Vector3::new(1_000_000_000_000_000_000, -1_000_000_000_000_000_000, 1),
        up: Vector3::zero(),
        right: Vector3::zero(),
        turn_right: Vector3::zero(),
        tilt_up: Vector3::zero(),
        roll_right: Vector3::zero(),
    };
    let mut external = ExternalForce {
        force: Vector3::new(i64::MAX - 5, i64::MIN + 5, 0),
        torque: Vector3::new(i64::MAX, i64::MIN, 7),
    };
    apply_thrust(finals, &mut external, u32::MAX);
    assert_eq!(external.force, Vector3::new(i64::MAX, i64::MIN, u32::MAX as i64));
    assert_eq!(external.torque, Vector3::new(i64::MAX, i64::MIN, 7));
}

#[test]
fn a_full_tick_of_forward_thrust() {
    let mut query = at_rest(4);
    let mut inputs = PlayerInputs::none();
    inputs.forward = 1;
    inputs.turn_right = -1;
    move_player(&mut query, &inputs, STEP);
    assert_eq!(query.player.relative_strength.forward, 1000);
    assert_eq!(query.player.relative_strength.turn_right, -1000);
    assert_eq!(query.external_force.force, Vector3::new(0, 0, -31_250_000_000_000));
    assert_eq!(query.external_force.torque, Vector3::new(0, 7_812_500_000_000, 0));
    assert_eq!(query.transform, upright());
    assert_eq!(query.velocity.linear, Vector3::zero());
    assert_eq!(query.player.network_id, 4);
}

#[test]
fn a_new_player_is_at_rest_and_brakes() {
    let player = ControllablePlayer::new(12);
    assert_eq!(player.network_id, 12);
    assert_eq!(player.relative_strength, Thrust::uniform(0));
    assert_eq!(player.thrust_responses, Thrust::uniform(ThrustReaction::Idle));
    assert_eq!(player.artificial_friction_flags, Thrust::uniform(true));
    let none = PlayerInputs::none();
    assert!(!none.brake);
    assert_eq!(
        (none.forward, none.up, none.right, none.turn_right, none.tilt_up, none.roll_right),
        (0, 0, 0, 0, 0, 0)
    );
}

#[test]
fn a_container_is_read_axis_by_axis() {
    let strengths: Fraction = Thrust {
        forward: 1,
        up: 2,
        right: 3,
        turn_right: 4,
        tilt_up: 5,
        roll_right: 6,
    };
    assert_eq!(strengths.at(Axis::Forward), 1);
    assert_eq!(strengths.at(Axis::Up), 2);
    assert_eq!(strengths.at(Axis::Right), 3);
    assert_eq!(strengths.at(Axis::TurnRight), 4);
    assert_eq!(strengths.at(Axis::TiltUp), 5);
    assert_eq!(strengths.at(Axis::RollRight), 6);
    assert_eq!(Fraction::default(), Thrust::uniform(0));
    assert_eq!(ThrustReaction::default(), ThrustReaction::Idle);
}
