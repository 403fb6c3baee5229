//! Affine transforms: a 4x4 homogeneous matrix with the bottom row
//! `(0, 0, 0, 1)`, applied to points (translation included) or to free
//! vectors (translation ignored), and composed by matrix multiplication.
//!
//! Every constructor here yields an affine matrix, and composition and
//! inversion preserve affinity, so the homogeneous weight of an evaluated
//! point is always exactly 1 and no perspective divide ever takes place.

use crate::matrix4x4::dot4;
use crate::matrix4x4::lemma_assoc3;
use crate::matrix4x4::lemma_dist_left;
use crate::matrix4x4::lemma_dist_right;
use crate::matrix4x4::bounded;
use crate::matrix4x4::has_exact_inverse;
use crate::matrix4x4::lemma_identity_neutral;
use crate::matrix4x4::lemma_mul_associative;
use crate::matrix4x4::entry_model;
use crate::matrix4x4::ident_model;
use crate::matrix4x4::mul_model;
use crate::matrix4x4::Matrix4x4;
use crate::matrix4x4::MatrixModel;
use crate::matrix4x4::ENTRY_LIMIT;
use crate::vector3::Vector3;
use crate::Scalar;
use crate::vector3::VectorModel;
use vstd::prelude::*;

verus! {

/// An affine matrix: bottom row `(0, 0, 0, 1)`, so points keep a homogeneous
/// weight of exactly 1 and translation lives in the last column.
pub open spec fn affine(m: MatrixModel) -> bool {
    &&& m.m30 == 0
    &&& m.m31 == 0
    &&& m.m32 == 0
    &&& m.m33 == 1
}

/// The image of a point under an affine matrix: the upper three rows applied
/// to `(p, 1)`. For an affine matrix the homogeneous weight of the image is
/// 1, so this is the complete evaluation, with no perspective divide.
pub open spec fn eval_point_model(m: MatrixModel, p: VectorModel) -> VectorModel {
    VectorModel {
        x: m.m00 * p.x + m.m01 * p.y + m.m02 * p.z + m.m03,
        y: m.m10 * p.x + m.m11 * p.y + m.m12 * p.z + m.m13,
        z: m.m20 * p.x + m.m21 * p.y + m.m22 * p.z + m.m23,
    }
}

/// The image of a free vector: only the upper-left 3x3 block applies; the
/// translation column is ignored.
pub open spec fn eval_vector_model(m: MatrixModel, v: VectorModel) -> VectorModel {
    VectorModel {
        x: m.m00 * v.x + m.m01 * v.y + m.m02 * v.z,
        y: m.m10 * v.x + m.m11 * v.y + m.m12 * v.z,
        z: m.m20 * v.x + m.m21 * v.y + m.m22 * v.z,
    }
}

/// Identity with translation column `(x, y, z)`.
pub open spec fn translate_model(x: int, y: int, z: int) -> MatrixModel {
    MatrixModel {
        m00: 1, m01: 0, m02: 0, m03: x,
        m10: 0, m11: 1, m12: 0, m13: y,
        m20: 0, m21: 0, m22: 1, m23: z,
        m30: 0, m31: 0, m32: 0, m33: 1,
    }
}

/// Diagonal `(x, y, z, 1)`.
pub open spec fn scale_model(x: int, y: int, z: int) -> MatrixModel {
    MatrixModel {
        m00: x, m01: 0, m02: 0, m03: 0,
        m10: 0, m11: y, m12: 0, m13: 0,
        m20: 0, m21: 0, m22: z, m23: 0,
        m30: 0, m31: 0, m32: 0, m33: 1,
    }
}

/// An affine placement transform: owns one 4x4 matrix. Immutable once
/// constructed; every operation returns a new value.
#[derive(Clone, Copy, PartialEq, Eq, Structural, Debug)]
pub struct Transform {
    m: Matrix4x4,
}

impl View for Transform {
    type V = MatrixModel;

    closed spec fn view(&self) -> MatrixModel {
        self.m@
    }
}

impl Transform {
    /// Every transform this kernel constructs is affine.
    pub open spec fn wf(self) -> bool {
        affine(self@)
    }

    /// The identity transform: maps every point and vector to itself.
    pub fn new() -> (r: Transform)
        ensures
            r@ == ident_model(1),
            r.wf(),
    {
        Transform { m: Matrix4x4::new_ident(1) }
    }

    /// Identity with translation column `(x, y, z)`.
    pub fn new_translate(x: Scalar, y: Scalar, z: Scalar) -> (r: Transform)
        ensures
            r@ == translate_model(x as int, y as int, z as int),
            r.wf(),
    {
        Transform {
            m: Matrix4x4::new(
                1, 0, 0, x,
                0, 1, 0, y,
                0, 0, 1, z,
                0, 0, 0, 1,
            ),
        }
    }

    /// Diagonal scale `(x, y, z)`.
    pub fn new_scale(x: Scalar, y: Scalar, z: Scalar) -> (r: Transform)
        ensures
            r@ == scale_model(x as int, y as int, z as int),
            r.wf(),
    {
        Transform {
            m: Matrix4x4::new(
                x, 0, 0, 0,
                0, y, 0, 0,
                0, 0, z, 0,
                0, 0, 0, 1,
            ),
        }
    }

    /// Composition: the result applies `op` first, then `self`, matching the
    /// homogeneous column-vector convention (the matrix product `self * op`).
    pub fn compose(&self, op: &Transform) -> (r: Transform)
        requires
            self.wf(),
            op.wf(),
            bounded(self@, ENTRY_LIMIT as int),
            bounded(op@, ENTRY_LIMIT as int),
        ensures
            r@ == mul_model(self@, op@),
            r.wf(),
    {
        Transform { m: self.m.times(&op.m) }
    }

    /// The inverse transform: its matrix is the exact inverse of this one's,
    /// so composing the two in either order gives the identity mapping for
    /// points and for free vectors. `None` is the domain error: a zero
    /// determinant — then no inverse exists at all — or a matrix with no
    /// exact scalar inverse.
    pub fn inverse(&self) -> (r: Option<Transform>)
        requires
            self.wf(),
            bounded(self@, ENTRY_LIMIT as int),
        ensures
            r is Some <==> has_exact_inverse(self@),
            r matches Some(t) ==> mul_model(self@, t@) == ident_model(1)
                && mul_model(t@, self@) == ident_model(1)
                && t.wf(),
    {
        match self.m.inverse() {
            Some(n) => Some(Transform { m: n }),
            None => None,
        }
    }

    /// Read entry (row, col) of the owned matrix, row-major.
    pub fn entry(&self, row: usize, col: usize) -> (r: Scalar)
        requires
            row < 4,
            col < 4,
        ensures
            r as int == entry_model(self@, row as int, col as int),
    {
        self.m.entry(row, col)
    }

    /// Map a point: the matrix applied to `(p, 1)`, translation included.
    /// Affinity keeps the homogeneous weight at exactly 1, so the result
    /// never needs a perspective divide.
    pub fn eval_point(&self, p: &Vector3<Scalar>) -> (r: Vector3<Scalar>)
        requires
            self.wf(),
            bounded(self@, ENTRY_LIMIT as int),
            p.in_bounds(ENTRY_LIMIT as int),
        ensures
            r@ == eval_point_model(self@, p@),
    {
        let x = dot4(
            self.m.entry(0, 0), self.m.entry(0, 1), self.m.entry(0, 2), self.m.entry(0, 3),
            p.x, p.y, p.z, 1,
        );
        let y = dot4(
            self.m.entry(1, 0), self.m.entry(1, 1), self.m.entry(1, 2), self.m.entry(1, 3),
            p.x, p.y, p.z, 1,
        );
        let z = dot4(
            self.m.entry(2, 0), self.m.entry(2, 1), self.m.entry(2, 2), self.m.entry(2, 3),
            p.x, p.y, p.z, 1,
        );
        let w = dot4(
            self.m.entry(3, 0), self.m.entry(3, 1), self.m.entry(3, 2), self.m.entry(3, 3),
            p.x, p.y, p.z, 1,
        );
        if w != 1 {
            // the perspective divide would go here; an affine bottom row
            // makes the weight exactly 1
            vstd::pervasive::unreached()
        } else {
            Vector3::new_xyz(x, y, z)
        }
    }

    /// Map a free vector: only the upper-left 3x3 block applies. Not correct
    /// for surface normals, which would need the inverse transpose.
    pub fn eval_vector(&self, v: &Vector3<Scalar>) -> (r: Vector3<Scalar>)
        requires
            self.wf(),
            bounded(self@, ENTRY_LIMIT as int),
            v.in_bounds(ENTRY_LIMIT as int),
        ensures
            r@ == eval_vector_model(self@, v@),
    {
        let x = dot4(
            self.m.entry(0, 0), self.m.entry(0, 1), self.m.entry(0, 2), 0,
            v.x, v.y, v.z, 0,
        );
        let y = dot4(
            self.m.entry(1, 0), self.m.entry(1, 1), self.m.entry(1, 2), 0,
            v.x, v.y, v.z, 0,
        );
        let z = dot4(
            self.m.entry(2, 0), self.m.entry(2, 1), self.m.entry(2, 2), 0,
            v.x, v.y, v.z, 0,
        );
        Vector3::new_xyz(x, y, z)
    }
}

/// One row of the point-composition identity: applying row `b` of an outer
/// matrix to the image of `p` under an affine inner matrix `a` equals the
/// same row of the matrix product applied to `p` directly.
proof fn lemma_point_row(
    b0: int, b1: int, b2: int, b3: int,
    a00: int, a01: int, a02: int, a03: int,
    a10: int, a11: int, a12: int, a13: int,
    a20: int, a21: int, a22: int, a23: int,
    px: int, py: int, pz: int,
)
    ensures
        b0 * (a00 * px + a01 * py + a02 * pz + a03)
            + b1 * (a10 * px + a11 * py + a12 * pz + a13)
            + b2 * (a20 * px + a21 * py + a22 * pz + a23)
            + b3
        == (b0 * a00 + b1 * a10 + b2 * a20) * px
            + (b0 * a01 + b1 * a11 + b2 * a21) * py
            + (b0 * a02 + b1 * a12 + b2 * a22) * pz
            + (b0 * a03 + b1 * a13 + b2 * a23 + b3),
{
    lemma_dist_left(b0, a00 * px, a01 * py, a02 * pz, a03);
    lemma_dist_left(b1, a10 * px, a11 * py, a12 * pz, a13);
    lemma_dist_left(b2, a20 * px, a21 * py, a22 * pz, a23);
    lemma_assoc3(b0, a00, px);
    lemma_assoc3(b0, a01, py);
    lemma_assoc3(b0, a02, pz);
    lemma_assoc3(b1, a10, px);
    lemma_assoc3(b1, a11, py);
    lemma_assoc3(b1, a12, pz);
    lemma_assoc3(b2, a20, px);
    lemma_assoc3(b2, a21, py);
    lemma_assoc3(b2, a22, pz);
    lemma_dist_right(b0 * a00, b1 * a10, b2 * a20, 0, px);
    lemma_dist_right(b0 * a01, b1 * a11, b2 * a21, 0, py);
    lemma_dist_right(b0 * a02, b1 * a12, b2 * a22, 0, pz);
}

/// Evaluating a point through `inner` and then `outer` is evaluating it
/// through their product: composition applies the right factor first.
pub proof fn lemma_eval_point_compose(outer: MatrixModel, inner: MatrixModel, p: VectorModel)
    requires
        affine(inner),
    ensures
        eval_point_model(outer, eval_point_model(inner, p))
            == eval_point_model(mul_model(outer, inner), p),
{
    lemma_point_row(
        outer.m00, outer.m01, outer.m02, outer.m03,
        inner.m00, inner.m01, inner.m02, inner.m03,
        inner.m10, inner.m11, inner.m12, inner.m13,
        inner.m20, inner.m21, inner.m22, inner.m23,
        p.x, p.y, p.z,
    );
    lemma_point_row(
        outer.m10, outer.m11, outer.m12, outer.m13,
        inner.m00, inner.m01, inner.m02, inner.m03,
        inner.m10, inner.m11, inner.m12, inner.m13,
        inner.m20, inner.m21, inner.m22, inner.m23,
        p.x, p.y, p.z,
    );
    lemma_point_row(
        outer.m20, outer.m21, outer.m22, outer.m23,
        inner.m00, inner.m01, inner.m02, inner.m03,
        inner.m10, inner.m11, inner.m12, inner.m13,
        inner.m20, inner.m21, inner.m22, inner.m23,
        p.x, p.y, p.z,
    );
}

/// One row of the vector-composition identity, over the 3x3 blocks alone.
proof fn lemma_vector_row(
    b0: int, b1: int, b2: int,
    a00: int, a01: int, a02: int,
    a10: int, a11: int, a12: int,
    a20: int, a21: int, a22: int,
    vx: int, vy: int, vz: int,
)
    ensures
        b0 * (a00 * vx + a01 * vy + a02 * vz)
            + b1 * (a10 * vx + a11 * vy + a12 * vz)
            + b2 * (a20 * vx + a21 * vy + a22 * vz)
        == (b0 * a00 + b1 * a10 + b2 * a20) * vx
            + (b0 * a01 + b1 * a11 + b2 * a21) * vy
            + (b0 * a02 + b1 * a12 + b2 * a22) * vz,
{
    lemma_dist_left(b0, a00 * vx, a01 * vy, a02 * vz, 0);
    lemma_dist_left(b1, a10 * vx, a11 * vy, a12 * vz, 0);
    lemma_dist_left(b2, a20 * vx, a21 * vy, a22 * vz, 0);
    lemma_assoc3(b0, a00, vx);
    lemma_assoc3(b0, a01, vy);
    lemma_assoc3(b0, a02, vz);
    lemma_assoc3(b1, a10, vx);
    lemma_assoc3(b1, a11, vy);
    lemma_assoc3(b1, a12, vz);
    lemma_assoc3(b2, a20, vx);
    lemma_assoc3(b2, a21, vy);
    lemma_assoc3(b2, a22, vz);
    lemma_dist_right(b0 * a00, b1 * a10, b2 * a20, 0, vx);
    lemma_dist_right(b0 * a01, b1 * a11, b2 * a21, 0, vy);
    lemma_dist_right(b0 * a02, b1 * a12, b2 * a22, 0, vz);
}

/// Evaluating a free vector through `inner` and then `outer` is evaluating
/// it through their product.
pub proof fn lemma_eval_vector_compose(outer: MatrixModel, inner: MatrixModel, v: VectorModel)
    requires
        affine(inner),
    ensures
        eval_vector_model(outer, eval_vector_model(inner, v))
            == eval_vector_model(mul_model(outer, inner), v),
{
    lemma_vector_row(
        outer.m00, outer.m01, outer.m02,
        inner.m00, inner.m01, inner.m02,
        inner.m10, inner.m11, inner.m12,
        inner.m20, inner.m21, inner.m22,
        v.x, v.y, v.z,
    );
    lemma_vector_row(
        outer.m10, outer.m11, outer.m12,
        inner.m00, inner.m01, inner.m02,
        inner.m10, inner.m11, inner.m12,
        inner.m20, inner.m21, inner.m22,
        v.x, v.y, v.z,
    );
    lemma_vector_row(
        outer.m20, outer.m21, outer.m22,
        inner.m00, inner.m01, inner.m02,
        inner.m10, inner.m11, inner.m12,
        inner.m20, inner.m21, inner.m22,
        v.x, v.y, v.z,
    );
}

/// A transform followed by an exact inverse returns every point unchanged.
pub proof fn lemma_inverse_eval_point(m: MatrixModel, n: MatrixModel, p: VectorModel)
    requires
        affine(m),
        mul_model(n, m) == ident_model(1),
    ensures
        eval_point_model(n, eval_point_model(m, p)) == p,
{
    lemma_eval_point_compose(n, m, p);
}

/// A transform followed by an exact inverse returns every free vector
/// unchanged.
pub proof fn lemma_inverse_eval_vector(m: MatrixModel, n: MatrixModel, v: VectorModel)
    requires
        affine(m),
        mul_model(n, m) == ident_model(1),
    ensures
        eval_vector_model(n, eval_vector_model(m, v)) == v,
{
    lemma_eval_vector_compose(n, m, v);
}


/// Composing any transform with the identity, on either side, leaves its
/// matrix unchanged.
pub proof fn lemma_compose_identity(t: Transform)
    ensures
        mul_model(t@, ident_model(1)) == t@,
        mul_model(ident_model(1), t@) == t@,
{
    lemma_identity_neutral(t@);
}

/// Composition of transforms is associative: grouping does not change the
/// resulting matrix.
pub proof fn lemma_compose_associative(a: Transform, b: Transform, c: Transform)
    ensures
        mul_model(mul_model(a@, b@), c@) == mul_model(a@, mul_model(b@, c@)),
{
    lemma_mul_associative(a@, b@, c@);
}

/// A transform followed by its inverse returns every point and every free
/// vector unchanged.
pub proof fn lemma_inverse_round_trip(t: Transform, inv: Transform, p: VectorModel)
    requires
        t.wf(),
        mul_model(inv@, t@) == ident_model(1),
    ensures
        eval_point_model(inv@, eval_point_model(t@, p)) == p,
        eval_vector_model(inv@, eval_vector_model(t@, p)) == p,
{
    lemma_inverse_eval_point(t@, inv@, p);
    lemma_inverse_eval_vector(t@, inv@, p);
}

} // verus!
