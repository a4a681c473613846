//! Last stages: the three staged values of each axis become one force and
//! one torque, which are handed to the physics engine.

use crate::info_gathering::normals_wf;
use crate::info_processors::{factors_wf, strengths_wf, MAX_FORCE_FACTOR};
use crate::player::{ControllablePlayer, ExternalForce};
use crate::stages::{
    Axis, BasePositionNormalVectors, FinalVectors, ForceFactors, RelativeStrength, Thrust,
    ThrustReactionsStage,
};
use crate::vector::{lemma_product_within, lemma_scaled_twice, MathVector, Vector3, UNIT};
use vstd::prelude::*;

verus! {

/// What one axis applies: its unit vector, weighted by the share and by the
/// force available.
pub open spec fn applied(direction: MathVector, strength: int, factor: int) -> MathVector {
    direction.scaled(strength).scaled(factor)
}

/// The greatest absolute value of a component of a final vector.
pub open spec fn max_applied() -> int {
    (UNIT * UNIT) * MAX_FORCE_FACTOR
}

/// Every final vector is within the bound that combination guarantees.
pub open spec fn finals_wf(finals: Thrust<FinalVectors>) -> bool {
    forall|axis: Axis| (#[trigger] finals.get(axis))@.within(max_applied())
}

/// The force on the player: the sum over the three moving axes.
pub open spec fn net_force(finals: Thrust<FinalVectors>) -> MathVector {
    finals.forward@.plus(finals.up@).plus(finals.right@)
}

/// The torque on the player: the sum over the three turning axes.
pub open spec fn net_torque(finals: Thrust<FinalVectors>) -> MathVector {
    finals.turn_right@.plus(finals.tilt_up@).plus(finals.roll_right@)
}

/// `value` where 64 bits hold it, else the nearest number that they hold.
pub open spec fn saturate(value: int) -> int {
    if value > i64::MAX {
        i64::MAX as int
    } else if value < i64::MIN {
        i64::MIN as int
    } else {
        value
    }
}

/// [`saturate`] on every component.
pub open spec fn saturate_vector(v: MathVector) -> MathVector {
    MathVector { x: saturate(v.x), y: saturate(v.y), z: saturate(v.z) }
}

/// What an accumulator holds after `rate` has acted on it for `dt_micros`.
pub open spec fn accumulated(base: MathVector, rate: MathVector, dt_micros: int) -> MathVector {
    saturate_vector(base.plus(rate.scaled(dt_micros)))
}

/// The bound on a weighted unit vector.
pub proof fn lemma_applied_within(direction: MathVector, strength: int, factor: int)
    requires
        direction.within(UNIT as int),
        -UNIT <= strength <= UNIT,
        0 <= factor <= MAX_FORCE_FACTOR,
    ensures
        applied(direction, strength, factor).within(max_applied()),
{
    let once = direction.scaled(strength);
    lemma_product_within(direction.x, strength, UNIT as int, UNIT as int);
    lemma_product_within(direction.y, strength, UNIT as int, UNIT as int);
    lemma_product_within(direction.z, strength, UNIT as int, UNIT as int);
    lemma_product_within(once.x, factor, UNIT * UNIT, MAX_FORCE_FACTOR as int);
    lemma_product_within(once.y, factor, UNIT * UNIT, MAX_FORCE_FACTOR as int);
    lemma_product_within(once.z, factor, UNIT * UNIT, MAX_FORCE_FACTOR as int);
}

fn combine_axis(direction: Vector3, strength: i64, factor: i64) -> (out: Vector3)
    requires
        direction@.within(UNIT as int),
        -UNIT <= strength <= UNIT,
        0 <= factor <= MAX_FORCE_FACTOR,
    ensures
        out@ == applied(direction@, strength as int, factor as int),
        out@.within(max_applied()),
{
    proof {
        lemma_applied_within(direction@, strength as int, factor as int);
        lemma_product_within(direction.x as int, strength as int, UNIT as int, UNIT as int);
        lemma_product_within(direction.y as int, strength as int, UNIT as int, UNIT as int);
        lemma_product_within(direction.z as int, strength as int, UNIT as int, UNIT as int);
    }
    direction.scaled(strength).scaled(factor)
}

/// Combines the unit vectors, the shares and the force factors into the
/// final vectors, and records on the player what was resolved: the shares
/// and the reactions. Nothing else of the player changes.
pub fn save_thrust_stages(
    relative_strength: Thrust<RelativeStrength>,
    normal_vectors: Thrust<BasePositionNormalVectors>,
    max: Thrust<ForceFactors>,
    thrust_responses: Thrust<ThrustReactionsStage>,
    player: &mut ControllablePlayer,
) -> (final_vectors: Thrust<FinalVectors>)
    requires
        strengths_wf(relative_strength),
        normals_wf(normal_vectors),
        factors_wf(max),
    ensures
        forall|axis: Axis|
            (#[trigger] final_vectors.get(axis))@ == applied(
                normal_vectors.get(axis)@,
                relative_strength.get(axis) as int,
                max.get(axis) as int,
            ),
        finals_wf(final_vectors),
        final(player).relative_strength == relative_strength,
        final(player).thrust_responses == thrust_responses,
        final(player).network_id == old(player).network_id,
        final(player).artificial_friction_flags == old(player).artificial_friction_flags,
{
    proof {
        assert(normal_vectors.get(Axis::Forward)@.within(UNIT as int));
        assert(normal_vectors.get(Axis::Up)@.within(UNIT as int));
        assert(normal_vectors.get(Axis::Right)@.within(UNIT as int));
        assert(normal_vectors.get(Axis::TurnRight)@.within(UNIT as int));
        assert(normal_vectors.get(Axis::TiltUp)@.within(UNIT as int));
        assert(normal_vectors.get(Axis::RollRight)@.within(UNIT as int));
        assert(-UNIT <= relative_strength.get(Axis::Forward) <= UNIT);
        assert(-UNIT <= relative_strength.get(Axis::Up) <= UNIT);
        assert(-UNIT <= relative_strength.get(Axis::Right) <= UNIT);
        assert(-UNIT <= relative_strength.get(Axis::TurnRight) <= UNIT);
        assert(-UNIT <= relative_strength.get(Axis::TiltUp) <= UNIT);
        assert(-UNIT <= relative_strength.get(Axis::RollRight) <= UNIT);
        assert(0 <= max.get(Axis::Forward) <= MAX_FORCE_FACTOR);
        assert(0 <= max.get(Axis::Up) <= MAX_FORCE_FACTOR);
        assert(0 <= max.get(Axis::Right) <= MAX_FORCE_FACTOR);
        assert(0 <= max.get(Axis::TurnRight) <= MAX_FORCE_FACTOR);
        assert(0 <= max.get(Axis::TiltUp) <= MAX_FORCE_FACTOR);
        assert(0 <= max.get(Axis::RollRight) <= MAX_FORCE_FACTOR);
    }
    let final_vectors = Thrust {
        forward: combine_axis(normal_vectors.forward, relative_strength.forward, max.forward),
        up: combine_axis(normal_vectors.up, relative_strength.up, max.up),
        right: combine_axis(normal_vectors.right, relative_strength.right, max.right),
        turn_right: combine_axis(
            normal_vectors.turn_right,
            relative_strength.turn_right,
            max.turn_right,
        ),
        tilt_up: combine_axis(normal_vectors.tilt_up, relative_strength.tilt_up, max.tilt_up),
        roll_right: combine_axis(
            normal_vectors.roll_right,
            relative_strength.roll_right,
            max.roll_right,
        ),
    };

    player.relative_strength = relative_strength;
    player.thrust_responses = thrust_responses;

    final_vectors
}

fn accumulate_component(base: i64, first: i64, second: i64, third: i64, dt_micros: u32) -> (out:
    i64)
    requires
        -max_applied() <= first <= max_applied(),
        -max_applied() <= second <= max_applied(),
        -max_applied() <= third <= max_applied(),
    ensures
        out == saturate(base + (first + second + third) * dt_micros),
{
    let rate: i128 = first as i128 + second as i128 + third as i128;
    proof {
        lemma_product_within(
            rate as int,
            dt_micros as int,
            3 * max_applied(),
            0x1_0000_0000,
        );
    }
    let total: i128 = base as i128 + rate * (dt_micros as i128);
    if total > i64::MAX as i128 {
        i64::MAX
    } else if total < i64::MIN as i128 {
        i64::MIN
    } else {
        total as i64
    }
}

/// Adds the force and the torque of this tick, each times the length of the
/// tick in microseconds, to what the physics engine is to apply. A sum that
/// 64 bits cannot hold stays at the nearest number that they can.
pub fn apply_thrust(
    final_thrust: Thrust<FinalVectors>,
    external_force: &mut ExternalForce,
    dt_micros: u32,
)
    requires
        finals_wf(final_thrust),
    ensures
        final(external_force).force@ == accumulated(
            old(external_force).force@,
            net_force(final_thrust),
            dt_micros as int,
        ),
        final(external_force).torque@ == accumulated(
            old(external_force).torque@,
            net_torque(final_thrust),
            dt_micros as int,
        ),
{
    proof {
        assert(final_thrust.get(Axis::Forward)@.within(max_applied()));
        assert(final_thrust.get(Axis::Up)@.within(max_applied()));
        assert(final_thrust.get(Axis::Right)@.within(max_applied()));
        assert(final_thrust.get(Axis::TurnRight)@.within(max_applied()));
        assert(final_thrust.get(Axis::TiltUp)@.within(max_applied()));
        assert(final_thrust.get(Axis::RollRight)@.within(max_applied()));
    }
    let f = external_force.force;
    let t = external_force.torque;
    external_force.force = Vector3 {
        x: accumulate_component(
            f.x,
            final_thrust.forward.x,
            final_thrust.up.x,
            final_thrust.right.x,
            dt_micros,
        ),
        y: accumulate_component(
            f.y,
            final_thrust.forward.y,
            final_thrust.up.y,
            final_thrust.right.y,
            dt_micros,
        ),
        z: accumulate_component(
            f.z,
            final_thrust.forward.z,
            final_thrust.up.z,
            final_thrust.right.z,
            dt_micros,
        ),
    };
    external_force.torque = Vector3 {
        x: accumulate_component(
            t.x,
            final_thrust.turn_right.x,
            final_thrust.tilt_up.x,
            final_thrust.roll_right.x,
            dt_micros,
        ),
        y: accumulate_component(
            t.y,
            final_thrust.turn_right.y,
            final_thrust.tilt_up.y,
            final_thrust.roll_right.y,
            dt_micros,
        ),
        z: accumulate_component(
            t.z,
            final_thrust.turn_right.z,
            final_thrust.tilt_up.z,
            final_thrust.roll_right.z,
            dt_micros,
        ),
    };
}

/// The three factors of an axis multiply in any grouping and in any order:
/// weighting the unit vector by the share and then by the force is the same
/// as weighting it by their product, or by the force first.
pub proof fn lemma_applied_any_grouping(direction: MathVector, strength: int, factor: int)
    ensures
        applied(direction, strength, factor) == direction.scaled(strength * factor),
        applied(direction, strength, factor) == direction.scaled(factor).scaled(strength),
{
    lemma_scaled_twice(direction, strength, factor);
}

/// The force on the player is the sum of what the three moving axes apply,
/// each computed from its own three values alone, added in any order; the
/// same holds of the torque and the three turning axes.
pub proof fn lemma_net_is_sum_of_axes(
    normals: Thrust<BasePositionNormalVectors>,
    strengths: Thrust<RelativeStrength>,
    factors: Thrust<ForceFactors>,
    finals: Thrust<FinalVectors>,
)
    requires
        forall|axis: Axis|
            (#[trigger] finals.get(axis))@ == applied(
                normals.get(axis)@,
                strengths.get(axis) as int,
                factors.get(axis) as int,
            ),
    ensures
        ({
            let f = applied(normals.forward@, strengths.forward as int, factors.forward as int);
            let u = applied(normals.up@, strengths.up as int, factors.up as int);
            let r = applied(normals.right@, strengths.right as int, factors.right as int);
            &&& net_force(finals) == f.plus(u).plus(r)
            &&& net_force(finals) == f.plus(r).plus(u)
            &&& net_force(finals) == u.plus(f).plus(r)
            &&& net_force(finals) == u.plus(r).plus(f)
            &&& net_force(finals) == r.plus(f).plus(u)
            &&& net_force(finals) == r.plus(u).plus(f)
            &&& net_force(finals) == f.plus(u.plus(r))
        }),
        ({
            let t = applied(
                normals.turn_right@,
                strengths.turn_right as int,
                factors.turn_right as int,
            );
            let p = applied(normals.tilt_up@, strengths.tilt_up as int, factors.tilt_up as int);
            let r = applied(
                normals.roll_right@,
                strengths.roll_right as int,
                factors.roll_right as int,
            );
            &&& net_torque(finals) == t.plus(p).plus(r)
            &&& net_torque(finals) == t.plus(r).plus(p)
            &&& net_torque(finals) == p.plus(t).plus(r)
            &&& net_torque(finals) == p.plus(r).plus(t)
            &&& net_torque(finals) == r.plus(t).plus(p)
            &&& net_torque(finals) == r.plus(p).plus(t)
            &&& net_torque(finals) == t.plus(p.plus(r))
        }),
{
    assert(finals.get(Axis::Forward)@ == finals.forward@);
    assert(finals.get(Axis::Up)@ == finals.up@);
    assert(finals.get(Axis::Right)@ == finals.right@);
    assert(finals.get(Axis::TurnRight)@ == finals.turn_right@);
    assert(finals.get(Axis::TiltUp)@ == finals.tilt_up@);
    assert(finals.get(Axis::RollRight)@ == finals.roll_right@);
}

} // verus!
