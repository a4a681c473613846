//! First stages: where the axes of a player point, and how fast it moves
//! along each.

use crate::player::{Transform, Velocity, MAX_SPEED};
use crate::stages::{Axis, BasePositionNormalVectors, RelativeVelocityMagnitudes, Thrust};
use crate::vector::{lemma_dot_within, MathVector, UNIT};
use vstd::prelude::*;

verus! {

/// The unit vector of `axis` for a player oriented as `transform`.
///
/// A turn to the right goes clockwise round `up`, so its vector is the
/// opposite of `up`; tilting up turns round `right`; a roll to the right
/// turns round `forward`.
pub open spec fn axis_normal(transform: Transform, axis: Axis) -> MathVector {
    match axis {
        Axis::Forward => transform.forward@,
        Axis::Up => transform.up@,
        Axis::Right => transform.right@,
        Axis::TurnRight => transform.up@.negated(),
        Axis::TiltUp => transform.right@,
        Axis::RollRight => transform.forward@,
    }
}

/// Every vector of the stage is at most one long in each component.
pub open spec fn normals_wf(normals: Thrust<BasePositionNormalVectors>) -> bool {
    forall|axis: Axis| (#[trigger] normals.get(axis))@.within(UNIT as int)
}

/// Samples the six unit vectors of a player's axes from its orientation.
pub fn get_base_normal_vectors(transform: &Transform) -> (normals: Thrust<
    BasePositionNormalVectors,
>)
    requires
        transform.wf(),
    ensures
        forall|axis: Axis| (#[trigger] normals.get(axis))@ == axis_normal(*transform, axis),
        normals_wf(normals),
{
    Thrust {
        forward: transform.forward,
        up: transform.up,
        right: transform.right,
        turn_right: transform.up.negated(),
        tilt_up: transform.right,
        roll_right: transform.forward,
    }
}

/// The greatest absolute value of a velocity along an axis.
pub open spec fn max_projection() -> int {
    3 * (UNIT * MAX_SPEED)
}

/// Projects the player's velocity onto each axis: the linear velocity onto
/// the three moving axes, the angular velocity onto the three turning ones.
pub fn calculate_relative_velocity_magnitudes(
    base_normals: &Thrust<BasePositionNormalVectors>,
    velocity: &Velocity,
) -> (magnitudes: Thrust<RelativeVelocityMagnitudes>)
    requires
        normals_wf(*base_normals),
        velocity.wf(),
    ensures
        forall|axis: Axis|
            #[trigger] magnitudes.get(axis) == base_normals.get(axis)@.dot(velocity.along(axis)),
        forall|axis: Axis|
            -max_projection() <= #[trigger] magnitudes.get(axis) <= max_projection(),
{
    proof {
        assert forall|axis: Axis|
            -max_projection() <= (#[trigger] base_normals.get(axis))@.dot(velocity.along(axis))
                <= max_projection() && base_normals.get(axis)@.dot_magnitude(
                velocity.along(axis),
            ) <= i64::MAX by {
            assert(base_normals.get(axis)@.within(UNIT as int));
            lemma_dot_within(
                base_normals.get(axis)@,
                velocity.along(axis),
                UNIT as int,
                MAX_SPEED as int,
            );
        }
        assert(base_normals.forward == base_normals.get(Axis::Forward));
        assert(base_normals.up == base_normals.get(Axis::Up));
        assert(base_normals.right == base_normals.get(Axis::Right));
        assert(base_normals.turn_right == base_normals.get(Axis::TurnRight));
        assert(base_normals.tilt_up == base_normals.get(Axis::TiltUp));
        assert(base_normals.roll_right == base_normals.get(Axis::RollRight));
    }
    Thrust {
        forward: base_normals.forward.dot(velocity.linear),
        up: base_normals.up.dot(velocity.linear),
        right: base_normals.right.dot(velocity.linear),
        turn_right: base_normals.turn_right.dot(velocity.angular),
        tilt_up: base_normals.tilt_up.dot(velocity.angular),
        roll_right: base_normals.roll_right.dot(velocity.angular),
    }
}

} // verus!
