//! Three-component vectors, generic over the scalar capability trait, with
//! an exact specialization for the kernel scalar that adds the geometric
//! products (dot, cross, squared length).

use crate::tdiv;
use crate::Number;
use crate::Scalar;
use crate::lemma_mul_bound;
use crate::matrix4x4::ENTRY_LIMIT;
use vstd::prelude::*;

verus! {

/// Mathematical value of a vector: three integers.
pub ghost struct VectorModel {
    pub x: int,
    pub y: int,
    pub z: int,
}

/// A value type holding three scalar components. It serves both as a point
/// and as a free vector; which reading applies is decided by the transform
/// method it is handed to, not by the type.
#[derive(Clone, Copy, PartialEq, Eq, Debug)]
pub struct Vector3<T: Number> {
    pub x: T,
    pub y: T,
    pub z: T,
}

impl<T: Number> View for Vector3<T> {
    type V = VectorModel;

    open spec fn view(&self) -> VectorModel {
        VectorModel { x: self.x.v(), y: self.y.v(), z: self.z.v() }
    }
}

impl<T: Number> Vector3<T> {
    /// All three components set to `initial`.
    pub fn new(initial: T) -> (r: Vector3<T>)
        ensures
            r@ == (VectorModel { x: initial.v(), y: initial.v(), z: initial.v() }),
    {
        Vector3 { x: initial, y: initial, z: initial }
    }

    /// Explicit construction from the three components.
    pub fn new_xyz(x: T, y: T, z: T) -> (r: Vector3<T>)
        ensures
            r@ == (VectorModel { x: x.v(), y: y.v(), z: z.v() }),
    {
        Vector3 { x, y, z }
    }

    /// Component-wise sum.
    pub fn plus(self, op: Vector3<T>) -> (r: Vector3<T>)
        requires
            T::in_range(self@.x + op@.x),
            T::in_range(self@.y + op@.y),
            T::in_range(self@.z + op@.z),
        ensures
            r@ == (VectorModel { x: self@.x + op@.x, y: self@.y + op@.y, z: self@.z + op@.z }),
    {
        Vector3 { x: self.x.plus(op.x), y: self.y.plus(op.y), z: self.z.plus(op.z) }
    }

    /// Component-wise difference.
    pub fn minus(self, op: Vector3<T>) -> (r: Vector3<T>)
        requires
            T::in_range(self@.x - op@.x),
            T::in_range(self@.y - op@.y),
            T::in_range(self@.z - op@.z),
        ensures
            r@ == (VectorModel { x: self@.x - op@.x, y: self@.y - op@.y, z: self@.z - op@.z }),
    {
        Vector3 { x: self.x.minus(op.x), y: self.y.minus(op.y), z: self.z.minus(op.z) }
    }

    /// In-place component-wise division by a scalar, truncating toward zero.
    /// The divisor must be nonzero: integer division by zero has no value.
    pub fn div_assign(&mut self, op: T)
        requires
            op.v() != 0,
            T::in_range(tdiv(old(self)@.x, op.v())),
            T::in_range(tdiv(old(self)@.y, op.v())),
            T::in_range(tdiv(old(self)@.z, op.v())),
        ensures
            final(self)@ == (VectorModel {
                x: tdiv(old(self)@.x, op.v()),
                y: tdiv(old(self)@.y, op.v()),
                z: tdiv(old(self)@.z, op.v()),
            }),
    {
        self.x = self.x.div_trunc(op);
        self.y = self.y.div_trunc(op);
        self.z = self.z.div_trunc(op);
    }
}

/// The standard 3D cross product at the level of mathematical integers.
pub open spec fn cross_model(a: VectorModel, b: VectorModel) -> VectorModel {
    VectorModel {
        x: a.y * b.z - a.z * b.y,
        y: a.z * b.x - a.x * b.z,
        z: a.x * b.y - a.y * b.x,
    }
}

/// Component-wise negation at the level of mathematical integers.
pub open spec fn neg_model(a: VectorModel) -> VectorModel {
    VectorModel { x: -a.x, y: -a.y, z: -a.z }
}

impl Vector3<Scalar> {
    /// Every component lies in `[-b, b]`.
    pub open spec fn in_bounds(self, b: int) -> bool {
        &&& -b <= self@.x <= b
        &&& -b <= self@.y <= b
        &&& -b <= self@.z <= b
    }

    /// The squared Euclidean length, x^2 + y^2 + z^2, computed exactly.
    pub fn len_squared(&self) -> (r: Scalar)
        requires
            self.in_bounds(ENTRY_LIMIT as int),
        ensures
            r == self@.x * self@.x + self@.y * self@.y + self@.z * self@.z,
    {
        proof {
            let l = ENTRY_LIMIT as int;
            lemma_mul_bound(self@.x, self@.x, l, l);
            lemma_mul_bound(self@.y, self@.y, l, l);
            lemma_mul_bound(self@.z, self@.z, l, l);
        }
        self.x * self.x + self.y * self.y + self.z * self.z
    }

    /// The dot product, computed exactly.
    pub fn dot(&self, op: &Vector3<Scalar>) -> (r: Scalar)
        requires
            self.in_bounds(ENTRY_LIMIT as int),
            op.in_bounds(ENTRY_LIMIT as int),
        ensures
            r == self@.x * op@.x + self@.y * op@.y + self@.z * op@.z,
    {
        proof {
            let l = ENTRY_LIMIT as int;
            lemma_mul_bound(self@.x, op@.x, l, l);
            lemma_mul_bound(self@.y, op@.y, l, l);
            lemma_mul_bound(self@.z, op@.z, l, l);
        }
        self.x * op.x + self.y * op.y + self.z * op.z
    }

    /// The standard 3D cross product, computed exactly.
    pub fn cross(&self, op: &Vector3<Scalar>) -> (r: Vector3<Scalar>)
        requires
            self.in_bounds(ENTRY_LIMIT as int),
            op.in_bounds(ENTRY_LIMIT as int),
        ensures
            r@ == cross_model(self@, op@),
    {
        proof {
            let l = ENTRY_LIMIT as int;
            lemma_mul_bound(self@.y, op@.z, l, l);
            lemma_mul_bound(self@.z, op@.y, l, l);
            lemma_mul_bound(self@.z, op@.x, l, l);
            lemma_mul_bound(self@.x, op@.z, l, l);
            lemma_mul_bound(self@.x, op@.y, l, l);
            lemma_mul_bound(self@.y, op@.x, l, l);
        }
        Vector3::new_xyz(
            self.y * op.z - self.z * op.y,
            self.z * op.x - self.x * op.z,
            self.x * op.y - self.y * op.x,
        )
    }
}

/// The cross product anti-commutes: a x b is the negation of b x a.
pub proof fn lemma_cross_anticommutative(a: VectorModel, b: VectorModel)
    ensures
        cross_model(a, b) == neg_model(cross_model(b, a)),
{
}

} // verus!
