//! Integer vectors in three dimensions and their mathematical model.

use vstd::prelude::*;

verus! {

/// One, in the scale in which unit vectors and fractions are stored.
pub const UNIT: i64 = 1000;

/// The absolute value of an integer.
pub open spec fn magnitude(value: int) -> int {
    if value < 0 {
        -value
    } else {
        value
    }
}

/// A vector over the integers: what a [`Vector3`] stands for in contracts.
pub ghost struct MathVector {
    pub x: int,
    pub y: int,
    pub z: int,
}

impl MathVector {
    pub open spec fn zero() -> MathVector {
        MathVector { x: 0, y: 0, z: 0 }
    }

    pub open spec fn plus(self, other: MathVector) -> MathVector {
        MathVector { x: self.x + other.x, y: self.y + other.y, z: self.z + other.z }
    }

    pub open spec fn scaled(self, factor: int) -> MathVector {
        MathVector { x: self.x * factor, y: self.y * factor, z: self.z * factor }
    }

    pub open spec fn negated(self) -> MathVector {
        MathVector { x: -self.x, y: -self.y, z: -self.z }
    }

    pub open spec fn dot(self, other: MathVector) -> int {
        self.x * other.x + self.y * other.y + self.z * other.z
    }

    /// The sum of the absolute values of the three products of a dot
    /// product: no partial sum of the dot product exceeds it.
    pub open spec fn dot_magnitude(self, other: MathVector) -> int {
        magnitude(self.x * other.x) + magnitude(self.y * other.y) + magnitude(self.z * other.z)
    }

    /// Every component lies in `[-bound, bound]`.
    pub open spec fn within(self, bound: int) -> bool {
        &&& -bound <= self.x <= bound
        &&& -bound <= self.y <= bound
        &&& -bound <= self.z <= bound
    }
}

/// A vector with 64-bit integer components.
#[derive(Clone, Copy, Debug, PartialEq, Eq, Structural)]
pub struct Vector3 {
    pub x: i64,
    pub y: i64,
    pub z: i64,
}

impl View for Vector3 {
    type V = MathVector;

    open spec fn view(&self) -> MathVector {
        MathVector { x: self.x as int, y: self.y as int, z: self.z as int }
    }
}

/// The product of two bounded integers is bounded by the product of the bounds.
pub proof fn lemma_product_within(a: int, b: int, bound_a: int, bound_b: int)
    requires
        -bound_a <= a <= bound_a,
        -bound_b <= b <= bound_b,
    ensures
        -(bound_a * bound_b) <= a * b <= bound_a * bound_b,
{
    assert(-(bound_a * bound_b) <= a * b <= bound_a * bound_b) by (nonlinear_arith)
        requires
            -bound_a <= a <= bound_a,
            -bound_b <= b <= bound_b,
    ;
}

/// Scaling a bounded vector by a bounded factor gives a bounded vector.
pub proof fn lemma_scaled_within(v: MathVector, factor: int, bound: int, factor_bound: int)
    requires
        v.within(bound),
        -factor_bound <= factor <= factor_bound,
    ensures
        v.scaled(factor).within(bound * factor_bound),
{
    lemma_product_within(v.x, factor, bound, factor_bound);
    lemma_product_within(v.y, factor, bound, factor_bound);
    lemma_product_within(v.z, factor, bound, factor_bound);
}

proof fn lemma_product_sign(a: int, b: int)
    ensures
        -magnitude(a * b) <= a * b <= magnitude(a * b),
{
}

/// The dot product of two bounded vectors is at most three products of the bounds.
pub proof fn lemma_dot_within(a: MathVector, b: MathVector, bound_a: int, bound_b: int)
    requires
        a.within(bound_a),
        b.within(bound_b),
    ensures
        -3 * (bound_a * bound_b) <= a.dot(b) <= 3 * (bound_a * bound_b),
        a.dot_magnitude(b) <= 3 * (bound_a * bound_b),
{
    lemma_product_within(a.x, b.x, bound_a, bound_b);
    lemma_product_within(a.y, b.y, bound_a, bound_b);
    lemma_product_within(a.z, b.z, bound_a, bound_b);
}

/// Scaling twice is scaling by the product, in either order.
pub proof fn lemma_scaled_twice(v: MathVector, f: int, g: int)
    ensures
        v.scaled(f).scaled(g) == v.scaled(f * g),
        v.scaled(f).scaled(g) == v.scaled(g).scaled(f),
{
    assert((v.x * f) * g == v.x * (f * g) && (v.x * g) * f == v.x * (f * g)) by (nonlinear_arith);
    assert((v.y * f) * g == v.y * (f * g) && (v.y * g) * f == v.y * (f * g)) by (nonlinear_arith);
    assert((v.z * f) * g == v.z * (f * g) && (v.z * g) * f == v.z * (f * g)) by (nonlinear_arith);
}

impl Vector3 {
    pub fn new(x: i64, y: i64, z: i64) -> (v: Vector3)
        ensures
            v@ == (MathVector { x: x as int, y: y as int, z: z as int }),
    {
        Vector3 { x, y, z }
    }

    pub fn zero() -> (v: Vector3)
        ensures
            v@ == MathVector::zero(),
    {
        Vector3 { x: 0, y: 0, z: 0 }
    }

    /// The opposite vector.
    pub fn negated(self) -> (v: Vector3)
        requires
            self@.within(i64::MAX as int),
        ensures
            v@ == self@.negated(),
    {
        Vector3 { x: -self.x, y: -self.y, z: -self.z }
    }

    /// Every component multiplied by `factor`.
    pub fn scaled(self, factor: i64) -> (v: Vector3)
        requires
            self@.scaled(factor as int).within(i64::MAX as int),
        ensures
            v@ == self@.scaled(factor as int),
    {
        Vector3 { x: self.x * factor, y: self.y * factor, z: self.z * factor }
    }

    /// The component-wise sum.
    pub fn plus(self, other: Vector3) -> (v: Vector3)
        requires
            self@.plus(other@).within(i64::MAX as int),
        ensures
            v@ == self@.plus(other@),
    {
        Vector3 { x: self.x + other.x, y: self.y + other.y, z: self.z + other.z }
    }

    /// The dot product.
    pub fn dot(self, other: Vector3) -> (d: i64)
        requires
            self@.dot_magnitude(other@) <= i64::MAX,
        ensures
            d == self@.dot(other@),
    {
        proof {
            lemma_product_sign(self.x as int, other.x as int);
            lemma_product_sign(self.y as int, other.y as int);
            lemma_product_sign(self.z as int, other.z as int);
        }
        self.x * other.x + self.y * other.y + self.z * other.z
    }
}

} // verus!
