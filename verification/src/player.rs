//! What the pipeline reads and writes of one player, as plain values.

use crate::stages::{
    ArtificialFrictionFlags, Axis, RelativeStrength, Thrust, ThrustReaction, ThrustReactionsStage,
};
use crate::vector::{MathVector, Vector3, UNIT};
use vstd::prelude::*;

verus! {

/// The greatest speed, in thousandths per second, that a velocity component
/// may hold. Whoever fills a [`Velocity`] clamps to it.
pub const MAX_SPEED: i64 = 1_000_000_000;

/// The orientation of a player in world space: where its own forward, up and
/// right point, each a unit vector in thousandths.
#[derive(Clone, Copy, Debug, PartialEq, Eq, Structural)]
pub struct Transform {
    pub forward: Vector3,
    pub up: Vector3,
    pub right: Vector3,
}

impl Transform {
    /// No component is longer than one.
    pub open spec fn wf(self) -> bool {
        &&& self.forward@.within(UNIT as int)
        &&& self.up@.within(UNIT as int)
        &&& self.right@.within(UNIT as int)
    }
}

/// The velocity of a player: linear and angular, in thousandths per second.
#[derive(Clone, Copy, Debug, PartialEq, Eq, Structural)]
pub struct Velocity {
    pub linear: Vector3,
    pub angular: Vector3,
}

impl Velocity {
    pub open spec fn wf(self) -> bool {
        &&& self.linear@.within(MAX_SPEED as int)
        &&& self.angular@.within(MAX_SPEED as int)
    }

    /// The part of the velocity that an axis acts on.
    pub open spec fn along(self, axis: Axis) -> MathVector {
        if axis.is_linear() {
            self.linear@
        } else {
            self.angular@
        }
    }
}

/// The force and torque that the physics engine is to apply to a player,
/// in the unit of the final stage times milliseconds.
#[derive(Clone, Copy, Debug, PartialEq, Eq, Structural)]
pub struct ExternalForce {
    pub force: Vector3,
    pub torque: Vector3,
}

/// What a client asks for during one tick. On each axis a positive number
/// asks for thrust towards the positive side, a negative number towards the
/// negative side, and zero asks for nothing. While `brake` is set the
/// requests are ignored and every axis is brought to rest.
#[derive(Clone, Copy, Debug, PartialEq, Eq, Structural)]
pub struct PlayerInputs {
    pub forward: i8,
    pub up: i8,
    pub right: i8,
    pub turn_right: i8,
    pub tilt_up: i8,
    pub roll_right: i8,
    pub brake: bool,
}

impl PlayerInputs {
    /// The request on `axis`.
    pub open spec fn request(self, axis: Axis) -> int {
        match axis {
            Axis::Forward => self.forward as int,
            Axis::Up => self.up as int,
            Axis::Right => self.right as int,
            Axis::TurnRight => self.turn_right as int,
            Axis::TiltUp => self.tilt_up as int,
            Axis::RollRight => self.roll_right as int,
        }
    }

    /// Input that asks for nothing.
    pub fn none() -> (inputs: PlayerInputs)
        ensures
            !inputs.brake,
            forall|axis: Axis| inputs.request(axis) == 0,
    {
        PlayerInputs {
            forward: 0,
            up: 0,
            right: 0,
            turn_right: 0,
            tilt_up: 0,
            roll_right: 0,
            brake: false,
        }
    }
}

/// An input as it arrives at the authority: who sent it, and what.
#[derive(Clone, Copy, Debug, PartialEq, Eq)]
pub struct FromClient<T> {
    pub client_id: u64,
    pub event: T,
}

/// The control state of one connected player.
#[derive(Clone, Copy, Debug, PartialEq, Eq)]
pub struct ControllablePlayer {
    /// The client that steers this player.
    pub network_id: u64,
    /// The strengths that the last tick resolved.
    pub relative_strength: Thrust<RelativeStrength>,
    /// The reactions that the last tick chose.
    pub thrust_responses: Thrust<ThrustReactionsStage>,
    /// On which axes a lack of input brakes.
    pub artificial_friction_flags: Thrust<ArtificialFrictionFlags>,
}

impl ControllablePlayer {
    /// A player at rest: nothing resolved yet, braking by default on every axis.
    pub fn new(network_id: u64) -> (player: ControllablePlayer)
        ensures
            player.network_id == network_id,
            forall|axis: Axis| player.relative_strength.get(axis) == 0,
            forall|axis: Axis| player.thrust_responses.get(axis) == ThrustReaction::Idle,
            forall|axis: Axis| player.artificial_friction_flags.get(axis),
    {
        ControllablePlayer {
            network_id,
            relative_strength: Thrust::uniform(0),
            thrust_responses: Thrust::uniform(ThrustReaction::Idle),
            artificial_friction_flags: Thrust::uniform(true),
        }
    }
}

/// Everything of one player that a tick touches.
#[derive(Clone, Copy, Debug, PartialEq, Eq)]
pub struct PlayerMovementQuery {
    pub player: ControllablePlayer,
    pub external_force: ExternalForce,
    pub transform: Transform,
    pub velocity: Velocity,
}

impl PlayerMovementQuery {
    /// The orientation and the velocity are within their bounds.
    pub open spec fn wf(self) -> bool {
        self.transform.wf() && self.velocity.wf()
    }
}

} // verus!
