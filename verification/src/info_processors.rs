//! Middle stages: what each axis is to do, and how strongly.
//!
//! # The laws chosen
//!
//! *Accelerating.* Up to the greatest speed of the axis the full force is
//! used. Above it the share falls in a straight line, and from twice that
//! speed on thrust adds nothing.
//!
//! *Braking.* The share grows in proportion to the speed that is left: one
//! thousandth for each full thousandth of the greatest speed, and all of it
//! from the greatest speed on. An axis that moves by less than a thousandth
//! of its greatest speed counts as at rest and is left alone. Because the
//! share is rounded down, the force never exceeds what the speed calls for,
//! and a tick cannot carry an axis through rest if the force factor, the
//! mass and the length of the tick are in the proportion that
//! [`lemma_brake_does_not_overshoot`] names.

use crate::info_gathering::normals_wf;
use crate::player::{PlayerInputs, Velocity, MAX_SPEED};
use crate::stages::{
    ArtificialFrictionFlags, Axis, BasePositionNormalVectors, FlaggedNormal,
    FlaggedNormalVectors, ForceFactors, MaxVelocityMagnitudes, RelativeStrength,
    RelativeVelocityMagnitudes, Thrust, ThrustReaction, ThrustReactionsStage,
};
use crate::vector::{lemma_dot_within, lemma_scaled_within, MathVector, Vector3, UNIT};
use vstd::prelude::*;

verus! {

/// The greatest force available on each of the three moving axes.
pub const LINEAR_FORCE_FACTOR: i64 = 2_000;

/// The greatest torque available on each of the three turning axes.
pub const ANGULAR_FORCE_FACTOR: i64 = 500;

/// The greatest force factor that the later stages accept.
pub const MAX_FORCE_FACTOR: i64 = 1_000_000;

/// The speed, in thousandths per second, from which thrust fades on a moving axis.
pub const LINEAR_MAX_SPEED: i64 = 50_000;

/// The speed, in thousandths of a radian per second, from which thrust fades
/// on a turning axis.
pub const ANGULAR_MAX_SPEED: i64 = 5_000;

/// The reaction of one axis.
///
/// A request counts unless the brake is held. Without a request that counts,
/// the axis brakes where the brake is held or its friction flag is set, and
/// idles otherwise.
pub open spec fn classify(request: int, brake: bool, friction: bool, residual: i64)
    -> ThrustReaction {
    if !brake && request > 0 {
        ThrustReaction::Accelerate { positive: true }
    } else if !brake && request < 0 {
        ThrustReaction::Accelerate { positive: false }
    } else if brake || friction {
        ThrustReaction::Brake { residual }
    } else {
        ThrustReaction::Idle
    }
}

/// The force or torque available on `axis`.
pub open spec fn force_factor(axis: Axis) -> int {
    if axis.is_linear() {
        LINEAR_FORCE_FACTOR as int
    } else {
        ANGULAR_FORCE_FACTOR as int
    }
}

/// The greatest speed on `axis`.
pub open spec fn max_velocity(axis: Axis) -> int {
    if axis.is_linear() {
        LINEAR_MAX_SPEED as int
    } else {
        ANGULAR_MAX_SPEED as int
    }
}

/// Every factor is a force that the later stages accept.
pub open spec fn factors_wf(factors: Thrust<ForceFactors>) -> bool {
    forall|axis: Axis| 0 <= #[trigger] factors.get(axis) <= MAX_FORCE_FACTOR
}

/// Every greatest speed is positive and within the bound on speeds.
pub open spec fn max_velocities_wf(max: Thrust<MaxVelocityMagnitudes>) -> bool {
    forall|axis: Axis| 1 <= #[trigger] max.get(axis) <= MAX_SPEED
}

/// Every flagged direction is at most one long in each component.
pub open spec fn flagged_wf(flagged: Thrust<FlaggedNormalVectors>) -> bool {
    forall|axis: Axis| (#[trigger] flagged.get(axis)).direction@.within(UNIT as int)
}

/// Every share lies between minus one and one.
pub open spec fn strengths_wf(strengths: Thrust<RelativeStrength>) -> bool {
    forall|axis: Axis| -UNIT <= #[trigger] strengths.get(axis) <= UNIT
}

fn classify_axis(request: i8, brake: bool, friction: bool, residual: i64) -> (reaction:
    ThrustReaction)
    ensures
        reaction == classify(request as int, brake, friction, residual),
{
    if !brake && request > 0 {
        ThrustReaction::Accelerate { positive: true }
    } else if !brake && request < 0 {
        ThrustReaction::Accelerate { positive: false }
    } else if brake || friction {
        ThrustReaction::Brake { residual }
    } else {
        ThrustReaction::Idle
    }
}

/// The force and torque factors of every player.
pub fn get_force_factors() -> (factors: Thrust<ForceFactors>)
    ensures
        forall|axis: Axis| #[trigger] factors.get(axis) == force_factor(axis),
        factors_wf(factors),
{
    Thrust {
        forward: LINEAR_FORCE_FACTOR,
        up: LINEAR_FORCE_FACTOR,
        right: LINEAR_FORCE_FACTOR,
        turn_right: ANGULAR_FORCE_FACTOR,
        tilt_up: ANGULAR_FORCE_FACTOR,
        roll_right: ANGULAR_FORCE_FACTOR,
    }
}

/// The greatest speeds of every player.
pub fn max_velocity_magnitudes() -> (max: Thrust<MaxVelocityMagnitudes>)
    ensures
        forall|axis: Axis| #[trigger] max.get(axis) == max_velocity(axis),
        max_velocities_wf(max),
{
    Thrust {
        forward: LINEAR_MAX_SPEED,
        up: LINEAR_MAX_SPEED,
        right: LINEAR_MAX_SPEED,
        turn_right: ANGULAR_MAX_SPEED,
        tilt_up: ANGULAR_MAX_SPEED,
        roll_right: ANGULAR_MAX_SPEED,
    }
}

/// Chooses the reaction of every axis from the client's input, the player's
/// friction flags and its velocity along the axes, and hands out the force
/// factors, which depend on none of them.
pub fn process_inputs(
    move_request: &PlayerInputs,
    artificial_friction_flags: &Thrust<ArtificialFrictionFlags>,
    relative_velocity_magnitudes: Thrust<RelativeVelocityMagnitudes>,
) -> (out: (Thrust<ThrustReactionsStage>, Thrust<ForceFactors>))
    ensures
        forall|axis: Axis| #[trigger]
            out.0.get(axis) == classify(
                move_request.request(axis),
                move_request.brake,
                artificial_friction_flags.get(axis),
                relative_velocity_magnitudes.get(axis),
            ),
        forall|axis: Axis| #[trigger] out.1.get(axis) == force_factor(axis),
        factors_wf(out.1),
{
    let brake = move_request.brake;
    let reactions = Thrust {
        forward: classify_axis(
            move_request.forward,
            brake,
            artificial_friction_flags.forward,
            relative_velocity_magnitudes.forward,
        ),
        up: classify_axis(
            move_request.up,
            brake,
            artificial_friction_flags.up,
            relative_velocity_magnitudes.up,
        ),
        right: classify_axis(
            move_request.right,
            brake,
            artificial_friction_flags.right,
            relative_velocity_magnitudes.right,
        ),
        turn_right: classify_axis(
            move_request.turn_right,
            brake,
            artificial_friction_flags.turn_right,
            relative_velocity_magnitudes.turn_right,
        ),
        tilt_up: classify_axis(
            move_request.tilt_up,
            brake,
            artificial_friction_flags.tilt_up,
            relative_velocity_magnitudes.tilt_up,
        ),
        roll_right: classify_axis(
            move_request.roll_right,
            brake,
            artificial_friction_flags.roll_right,
            relative_velocity_magnitudes.roll_right,
        ),
    };
    (reactions, get_force_factors())
}

/// The direction in which `reaction` wants force on an axis whose unit vector is `normal`.
pub open spec fn flagged_direction(reaction: ThrustReaction, normal: MathVector) -> MathVector {
    normal.scaled(reaction.sign())
}

fn flag_axis(reaction: ThrustReaction, normal: Vector3) -> (flagged: FlaggedNormal)
    requires
        normal@.within(UNIT as int),
    ensures
        flagged.reaction == reaction,
        flagged.direction@ == flagged_direction(reaction, normal@),
        flagged.direction@.within(UNIT as int),
{
    proof {
        lemma_scaled_within(normal@, reaction.sign(), UNIT as int, 1);
    }
    FlaggedNormal { reaction, direction: normal.scaled(reaction.signum()) }
}

/// Crosses the reactions with the unit vectors: each axis gets the direction
/// in which its reaction wants force.
pub fn flag_normal_vectors(
    reactions: &Thrust<ThrustReactionsStage>,
    normals: &Thrust<BasePositionNormalVectors>,
) -> (flagged: Thrust<FlaggedNormalVectors>)
    requires
        normals_wf(*normals),
    ensures
        forall|axis: Axis| (#[trigger] flagged.get(axis)).reaction == reactions.get(axis),
        forall|axis: Axis|
            (#[trigger] flagged.get(axis)).direction@ == flagged_direction(
                reactions.get(axis),
                normals.get(axis)@,
            ),
        flagged_wf(flagged),
{
    proof {
        assert(normals.get(Axis::Forward)@.within(UNIT as int));
        assert(normals.get(Axis::Up)@.within(UNIT as int));
        assert(normals.get(Axis::Right)@.within(UNIT as int));
        assert(normals.get(Axis::TurnRight)@.within(UNIT as int));
        assert(normals.get(Axis::TiltUp)@.within(UNIT as int));
        assert(normals.get(Axis::RollRight)@.within(UNIT as int));
    }
    Thrust {
        forward: flag_axis(reactions.forward, normals.forward),
        up: flag_axis(reactions.up, normals.up),
        right: flag_axis(reactions.right, normals.right),
        turn_right: flag_axis(reactions.turn_right, normals.turn_right),
        tilt_up: flag_axis(reactions.tilt_up, normals.tilt_up),
        roll_right: flag_axis(reactions.roll_right, normals.roll_right),
    }
}

/// The share of the force used when accelerating, in thousandths, for a
/// velocity `along` the wanted direction (a dot product with a unit vector
/// in thousandths) and a greatest speed `max_speed`.
pub open spec fn accelerate_share(along: int, max_speed: int) -> int {
    let cap = max_speed * UNIT;
    if along <= cap {
        UNIT as int
    } else if along >= 2 * cap {
        0
    } else {
        (UNIT * (2 * cap - along)) / cap
    }
}

/// The share of the force used when braking, in thousandths, for a speed
/// that is left (the absolute value of such a dot product).
pub open spec fn brake_share(speed: int, max_speed: int) -> int {
    let called_for = speed / max_speed;
    if called_for >= UNIT {
        UNIT as int
    } else {
        called_for
    }
}

/// An axis that moves by less than a thousandth of its greatest speed
/// counts as at rest.
pub open spec fn at_rest(residual: int, max_speed: int) -> bool {
    -max_speed < residual < max_speed
}

/// The absolute value of the velocity that a braking axis has left.
pub open spec fn residual_speed(residual: i64) -> int {
    if residual >= 0 {
        residual as int
    } else {
        -(residual as int)
    }
}

/// The signed share of the available force that one axis is to apply.
pub open spec fn resolved_strength(
    reaction: ThrustReaction,
    direction: MathVector,
    max_speed: int,
    velocity: MathVector,
) -> int {
    match reaction {
        ThrustReaction::Idle => 0,
        ThrustReaction::Accelerate { positive } => {
            let share = accelerate_share(direction.dot(velocity), max_speed);
            if positive {
                share
            } else {
                -share
            }
        },
        ThrustReaction::Brake { residual } => {
            let share = brake_share(residual_speed(residual), max_speed);
            if residual > 0 {
                -share
            } else if residual < 0 {
                share
            } else {
                0
            }
        },
    }
}

/// The accelerating share is a share: between nothing and all.
pub proof fn lemma_accelerate_share_bounds(along: int, max_speed: int)
    requires
        max_speed >= 1,
    ensures
        0 <= accelerate_share(along, max_speed) <= UNIT,
        along > max_speed * UNIT ==> accelerate_share(along, max_speed) < UNIT,
{
    let cap = max_speed * UNIT;
    if cap < along < 2 * cap {
        let rest = 2 * cap - along;
        assert(0 <= (1000 * rest) / cap < 1000) by (nonlinear_arith)
            requires
                0 < rest < cap,
        ;
    }
}

/// The braking share is a share; it is nothing exactly where the axis is
/// at rest; and it never calls for more than the speed that is left.
pub proof fn lemma_brake_share_bounds(speed: int, max_speed: int)
    requires
        max_speed >= 1,
        speed >= 0,
    ensures
        0 <= brake_share(speed, max_speed) <= UNIT,
        speed >= max_speed ==> brake_share(speed, max_speed) >= 1,
        speed < max_speed ==> brake_share(speed, max_speed) == 0,
        brake_share(speed, max_speed) * max_speed <= speed,
{
    let called_for = speed / max_speed;
    assert(0 <= called_for && called_for * max_speed <= speed && (speed >= max_speed
        ==> called_for >= 1) && (speed < max_speed ==> called_for == 0)) by (nonlinear_arith)
        requires
            called_for == speed / max_speed,
            speed >= 0,
            max_speed >= 1,
    ;
    if called_for >= UNIT {
        assert(UNIT * max_speed <= called_for * max_speed) by (nonlinear_arith)
            requires
                UNIT <= called_for,
                max_speed >= 1,
        ;
    }
}

/// Braking does not carry an axis through rest.
///
/// A share `s` of the force factor `f`, applied for `dt_micros`
/// microseconds to a body of mass `mass`, changes the velocity along the
/// axis by `s * f * dt_micros / (1_000_000 * mass)` thousandths per second,
/// and the axis moves at `speed / 1000` thousandths per second. Where
/// `f * dt_micros <= 1000 * mass * max_speed`, the change that braking
/// causes is at most the speed that is left.
pub proof fn lemma_brake_does_not_overshoot(
    speed: int,
    max_speed: int,
    factor: int,
    dt_micros: int,
    mass: int,
)
    requires
        speed >= 0,
        max_speed >= 1,
        factor >= 0,
        dt_micros >= 0,
        mass >= 1,
        factor * dt_micros <= 1000 * mass * max_speed,
    ensures
        brake_share(speed, max_speed) * (factor * dt_micros) <= 1000 * mass * speed,
{
    let share = brake_share(speed, max_speed);
    lemma_brake_share_bounds(speed, max_speed);
    assert(share * (factor * dt_micros) <= share * (1000 * mass * max_speed))
        by (nonlinear_arith)
        requires
            share >= 0,
            factor * dt_micros <= 1000 * mass * max_speed,
    ;
    assert(share * (1000 * mass * max_speed) == (1000 * mass) * (share * max_speed))
        by (nonlinear_arith);
    assert((1000 * mass) * (share * max_speed) <= (1000 * mass) * speed) by (nonlinear_arith)
        requires
            share * max_speed <= speed,
            mass >= 1,
    ;
}

fn resolve_axis(flagged: FlaggedNormal, max_speed: i64, velocity: Vector3) -> (strength: i64)
    requires
        flagged.direction@.within(UNIT as int),
        1 <= max_speed <= MAX_SPEED,
        velocity@.within(MAX_SPEED as int),
    ensures
        strength == resolved_strength(
            flagged.reaction,
            flagged.direction@,
            max_speed as int,
            velocity@,
        ),
        -UNIT <= strength <= UNIT,
{
    match flagged.reaction {
        ThrustReaction::Idle => 0,
        ThrustReaction::Accelerate { positive } => {
            proof {
                lemma_dot_within(flagged.direction@, velocity@, UNIT as int, MAX_SPEED as int);
                lemma_accelerate_share_bounds(
                    flagged.direction@.dot(velocity@),
                    max_speed as int,
                );
            }
            let along: i64 = flagged.direction.dot(velocity);
            let cap: i64 = max_speed * UNIT;
            let share: i64 = if along <= cap {
                UNIT
            } else if along >= 2 * cap {
                0
            } else {
                (UNIT * (2 * cap - along)) / cap
            };
            if positive {
                share
            } else {
                -share
            }
        },
        ThrustReaction::Brake { residual } => {
            proof {
                lemma_brake_share_bounds(residual_speed(residual), max_speed as int);
            }
            let speed: i128 = if residual >= 0 {
                residual as i128
            } else {
                -(residual as i128)
            };
            let called_for: i128 = speed / (max_speed as i128);
            let share: i64 = if called_for >= UNIT as i128 {
                UNIT
            } else {
                called_for as i64
            };
            if residual > 0 {
                -share
            } else if residual < 0 {
                share
            } else {
                0
            }
        },
    }
}

/// Resolves, for every axis, the share of the available force to apply.
///
/// Each axis is resolved from its own reaction, direction and greatest
/// speed, and from the part of the velocity that it acts on: no axis enters
/// the share of another.
pub fn get_relative_strengths(
    flagged: &Thrust<FlaggedNormalVectors>,
    max: &Thrust<MaxVelocityMagnitudes>,
    velocity: &Velocity,
) -> (strengths: Thrust<RelativeStrength>)
    requires
        flagged_wf(*flagged),
        max_velocities_wf(*max),
        velocity.wf(),
    ensures
        forall|axis: Axis| #[trigger]
            strengths.get(axis) == resolved_strength(
                flagged.get(axis).reaction,
                flagged.get(axis).direction@,
                max.get(axis) as int,
                velocity.along(axis),
            ),
        strengths_wf(strengths),
{
    proof {
        assert(flagged.get(Axis::Forward).direction@.within(UNIT as int));
        assert(flagged.get(Axis::Up).direction@.within(UNIT as int));
        assert(flagged.get(Axis::Right).direction@.within(UNIT as int));
        assert(flagged.get(Axis::TurnRight).direction@.within(UNIT as int));
        assert(flagged.get(Axis::TiltUp).direction@.within(UNIT as int));
        assert(flagged.get(Axis::RollRight).direction@.within(UNIT as int));
        assert(1 <= max.get(Axis::Forward) <= MAX_SPEED);
        assert(1 <= max.get(Axis::Up) <= MAX_SPEED);
        assert(1 <= max.get(Axis::Right) <= MAX_SPEED);
        assert(1 <= max.get(Axis::TurnRight) <= MAX_SPEED);
        assert(1 <= max.get(Axis::TiltUp) <= MAX_SPEED);
        assert(1 <= max.get(Axis::RollRight) <= MAX_SPEED);
    }
    Thrust {
        forward: resolve_axis(flagged.forward, max.forward, velocity.linear),
        up: resolve_axis(flagged.up, max.up, velocity.linear),
        right: resolve_axis(flagged.right, max.right, velocity.linear),
        turn_right: resolve_axis(flagged.turn_right, max.turn_right, velocity.angular),
        tilt_up: resolve_axis(flagged.tilt_up, max.tilt_up, velocity.angular),
        roll_right: resolve_axis(flagged.roll_right, max.roll_right, velocity.angular),
    }
}

} // verus!
