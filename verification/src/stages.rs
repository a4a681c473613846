//! The six degrees of freedom and the container that holds one value for each.

use crate::vector::Vector3;
use vstd::prelude::*;

verus! {

/// One of the six independent degrees of freedom of a player.
#[derive(Clone, Copy, Debug, PartialEq, Eq, Structural)]
pub enum Axis {
    Forward,
    Up,
    Right,
    TurnRight,
    TiltUp,
    RollRight,
}

impl Axis {
    /// Forward, up and right move the player; the other three turn it.
    pub open spec fn is_linear(self) -> bool {
        self == Axis::Forward || self == Axis::Up || self == Axis::Right
    }
}

/// A stage of the movement pipeline: it fixes the unit of the six values held.
pub trait ThrustStage {
    type DimensionType: Copy;
}

/// One value per degree of freedom, all of the unit that the stage `S` fixes.
#[derive(Clone, Copy, Debug, PartialEq, Eq)]
pub struct Thrust<S: ThrustStage> {
    /// Positive is forward.
    pub forward: S::DimensionType,
    pub up: S::DimensionType,
    pub right: S::DimensionType,
    pub turn_right: S::DimensionType,
    /// Upwards is positive.
    pub tilt_up: S::DimensionType,
    /// Right is positive.
    pub roll_right: S::DimensionType,
}

impl<S: ThrustStage> Thrust<S> {
    /// The value held for `axis`.
    pub open spec fn get(self, axis: Axis) -> S::DimensionType {
        match axis {
            Axis::Forward => self.forward,
            Axis::Up => self.up,
            Axis::Right => self.right,
            Axis::TurnRight => self.turn_right,
            Axis::TiltUp => self.tilt_up,
            Axis::RollRight => self.roll_right,
        }
    }

    /// Two containers that agree on every axis are equal.
    pub proof fn lemma_equal_by_axes(self, other: Thrust<S>)
        requires
            forall|axis: Axis| self.get(axis) == other.get(axis),
        ensures
            self == other,
    {
        assert(self.get(Axis::Forward) == other.get(Axis::Forward));
        assert(self.get(Axis::Up) == other.get(Axis::Up));
        assert(self.get(Axis::Right) == other.get(Axis::Right));
        assert(self.get(Axis::TurnRight) == other.get(Axis::TurnRight));
        assert(self.get(Axis::TiltUp) == other.get(Axis::TiltUp));
        assert(self.get(Axis::RollRight) == other.get(Axis::RollRight));
    }
}

impl<S: ThrustStage> Thrust<S> {
    /// The value held for `axis`.
    pub fn at(&self, axis: Axis) -> (value: S::DimensionType)
        ensures
            value == self.get(axis),
    {
        match axis {
            Axis::Forward => self.forward,
            Axis::Up => self.up,
            Axis::Right => self.right,
            Axis::TurnRight => self.turn_right,
            Axis::TiltUp => self.tilt_up,
            Axis::RollRight => self.roll_right,
        }
    }

    /// The container that holds `value` on every axis.
    pub fn uniform(value: S::DimensionType) -> (thrust: Thrust<S>)
        ensures
            forall|axis: Axis| thrust.get(axis) == value,
    {
        Thrust {
            forward: value,
            up: value,
            right: value,
            turn_right: value,
            tilt_up: value,
            roll_right: value,
        }
    }
}

impl<S: ThrustStage> Default for Thrust<S> where S::DimensionType: Default {
    fn default() -> (thrust: Thrust<S>)
        ensures
            forall|axis: Axis, other: Axis| thrust.get(axis) == thrust.get(other),
    {
        Thrust::uniform(Default::default())
    }
}

/// What a player does on one axis during a tick.
#[derive(Clone, Copy, Debug, PartialEq, Eq, Structural)]
pub enum ThrustReaction {
    /// The player asked for thrust, towards the positive or the negative side.
    Accelerate { positive: bool },
    /// No thrust was asked for and the axis is to be brought to rest;
    /// `residual` is the velocity that is left along the axis.
    Brake { residual: i64 },
    /// Nothing is asked for: the axis drifts freely.
    Idle,
}

impl Default for ThrustReaction {
    fn default() -> (reaction: ThrustReaction)
        ensures
            reaction == ThrustReaction::Idle,
    {
        ThrustReaction::Idle
    }
}

impl ThrustReaction {
    /// The side towards which force is wanted: `1`, `-1`, or `0` for none.
    /// Braking pushes against the residual velocity.
    pub open spec fn sign(self) -> int {
        match self {
            ThrustReaction::Accelerate { positive } => if positive { 1 } else { -1 },
            ThrustReaction::Brake { residual } => if residual > 0 {
                -1
            } else if residual < 0 {
                1
            } else {
                0
            },
            ThrustReaction::Idle => 0,
        }
    }

    pub fn signum(self) -> (s: i64)
        ensures
            s == self.sign(),
    {
        match self {
            ThrustReaction::Accelerate { positive } => if positive { 1 } else { -1 },
            ThrustReaction::Brake { residual } => if residual > 0 {
                -1
            } else if residual < 0 {
                1
            } else {
                0
            },
            ThrustReaction::Idle => 0,
        }
    }
}

/// A reaction together with the direction in which it wants force.
#[derive(Clone, Copy, Debug, PartialEq, Eq, Structural)]
pub struct FlaggedNormal {
    pub reaction: ThrustReaction,
    /// The axis' unit vector times the reaction's sign.
    pub direction: Vector3,
}

/// Stage: the unit vector, in world space, of each axis. For the three
/// turning axes it is the vector about which a positive turn goes round by
/// the right-hand rule.
#[derive(Clone, Copy, Debug, PartialEq, Eq)]
pub struct BasePositionNormalVectors;

impl ThrustStage for BasePositionNormalVectors {
    type DimensionType = Vector3;
}

/// Stage: the player's velocity along each axis, as the dot product of a
/// unit vector (in thousandths) and a velocity (in thousandths per second).
#[derive(Clone, Copy, Debug, PartialEq, Eq)]
pub struct RelativeVelocityMagnitudes;

impl ThrustStage for RelativeVelocityMagnitudes {
    type DimensionType = i64;
}

/// Stage: whether an axis without input is braked to rest.
#[derive(Clone, Copy, Debug, PartialEq, Eq)]
pub struct ArtificialFrictionFlags;

impl ThrustStage for ArtificialFrictionFlags {
    type DimensionType = bool;
}

/// Stage: the reaction chosen for each axis.
#[derive(Clone, Copy, Debug, PartialEq, Eq)]
pub struct ThrustReactionsStage;

impl ThrustStage for ThrustReactionsStage {
    type DimensionType = ThrustReaction;
}

/// Stage: each reaction with its signed direction.
#[derive(Clone, Copy, Debug, PartialEq, Eq)]
pub struct FlaggedNormalVectors;

impl ThrustStage for FlaggedNormalVectors {
    type DimensionType = FlaggedNormal;
}

/// Stage: the speed, in thousandths per second, beyond which thrust fades.
#[derive(Clone, Copy, Debug, PartialEq, Eq)]
pub struct MaxVelocityMagnitudes;

impl ThrustStage for MaxVelocityMagnitudes {
    type DimensionType = i64;
}

/// Stage: the share of the available force to apply, in thousandths,
/// between `-UNIT` and `UNIT`.
#[derive(Clone, Copy, Debug, PartialEq, Eq)]
pub struct RelativeStrength;

impl ThrustStage for RelativeStrength {
    type DimensionType = i64;
}

/// Stage: the greatest force or torque available on each axis.
#[derive(Clone, Copy, Debug, PartialEq, Eq)]
pub struct ForceFactors;

impl ThrustStage for ForceFactors {
    type DimensionType = i64;
}

/// Stage: the force or torque applied on each axis, as a vector in
/// millionths of a unit of force (a unit vector in thousandths times a share
/// in thousandths times a force).
#[derive(Clone, Copy, Debug, PartialEq, Eq)]
pub struct FinalVectors;

impl ThrustStage for FinalVectors {
    type DimensionType = Vector3;
}

/// The unit vectors of the six axes.
pub type Direction = Thrust<BasePositionNormalVectors>;

/// The shares of the available force, one per axis.
pub type Fraction = Thrust<RelativeStrength>;

/// The forces and torques available, one per axis.
pub type Magnitude = Thrust<ForceFactors>;

/// The forces and torques applied, one vector per axis.
pub type Applied = Thrust<FinalVectors>;

} // verus!
