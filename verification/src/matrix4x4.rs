//! 4x4 matrices over the kernel scalar: identity-shaped construction, exact
//! matrix multiplication, and exact inversion.
//!
//! Every operation states the mathematical value of its result over
//! [`MatrixModel`], the matrix of unbounded integers a `Matrix4x4` stands for.

use crate::lemma_mul_bound;
use crate::tdiv;
use vstd::prelude::*;

verus! {

/// The entry bound under which a matrix product (and the inversion
/// intermediates) provably cannot overflow the machine arithmetic: 2^30.
pub const ENTRY_LIMIT: i64 = 1073741824;

/// Mathematical value of a 4x4 matrix: sixteen integers, row-major
/// (`mIJ` is row I, column J).
#[verifier::ext_equal]
pub ghost struct MatrixModel {
    pub m00: int, pub m01: int, pub m02: int, pub m03: int,
    pub m10: int, pub m11: int, pub m12: int, pub m13: int,
    pub m20: int, pub m21: int, pub m22: int, pub m23: int,
    pub m30: int, pub m31: int, pub m32: int, pub m33: int,
}

/// The identity-shaped matrix with `d` on the main diagonal: `d == 1` gives
/// the true identity, any other value a uniform scale.
pub open spec fn ident_model(d: int) -> MatrixModel {
    MatrixModel {
        m00: d, m01: 0, m02: 0, m03: 0,
        m10: 0, m11: d, m12: 0, m13: 0,
        m20: 0, m21: 0, m22: d, m23: 0,
        m30: 0, m31: 0, m32: 0, m33: d,
    }
}

/// The standard matrix product: entry (i, j) is the sum over k of
/// `a[i][k] * b[k][j]`.
pub open spec fn mul_model(a: MatrixModel, b: MatrixModel) -> MatrixModel {
    MatrixModel {
        m00: a.m00 * b.m00 + a.m01 * b.m10 + a.m02 * b.m20 + a.m03 * b.m30,
        m01: a.m00 * b.m01 + a.m01 * b.m11 + a.m02 * b.m21 + a.m03 * b.m31,
        m02: a.m00 * b.m02 + a.m01 * b.m12 + a.m02 * b.m22 + a.m03 * b.m32,
        m03: a.m00 * b.m03 + a.m01 * b.m13 + a.m02 * b.m23 + a.m03 * b.m33,
        m10: a.m10 * b.m00 + a.m11 * b.m10 + a.m12 * b.m20 + a.m13 * b.m30,
        m11: a.m10 * b.m01 + a.m11 * b.m11 + a.m12 * b.m21 + a.m13 * b.m31,
        m12: a.m10 * b.m02 + a.m11 * b.m12 + a.m12 * b.m22 + a.m13 * b.m32,
        m13: a.m10 * b.m03 + a.m11 * b.m13 + a.m12 * b.m23 + a.m13 * b.m33,
        m20: a.m20 * b.m00 + a.m21 * b.m10 + a.m22 * b.m20 + a.m23 * b.m30,
        m21: a.m20 * b.m01 + a.m21 * b.m11 + a.m22 * b.m21 + a.m23 * b.m31,
        m22: a.m20 * b.m02 + a.m21 * b.m12 + a.m22 * b.m22 + a.m23 * b.m32,
        m23: a.m20 * b.m03 + a.m21 * b.m13 + a.m22 * b.m23 + a.m23 * b.m33,
        m30: a.m30 * b.m00 + a.m31 * b.m10 + a.m32 * b.m20 + a.m33 * b.m30,
        m31: a.m30 * b.m01 + a.m31 * b.m11 + a.m32 * b.m21 + a.m33 * b.m31,
        m32: a.m30 * b.m02 + a.m31 * b.m12 + a.m32 * b.m22 + a.m33 * b.m32,
        m33: a.m30 * b.m03 + a.m31 * b.m13 + a.m32 * b.m23 + a.m33 * b.m33,
    }
}

/// Every entry of `m` lies in `[-b, b]`.
pub open spec fn bounded(m: MatrixModel, b: int) -> bool {
    &&& -b <= m.m00 <= b
    &&& -b <= m.m01 <= b
    &&& -b <= m.m02 <= b
    &&& -b <= m.m03 <= b
    &&& -b <= m.m10 <= b
    &&& -b <= m.m11 <= b
    &&& -b <= m.m12 <= b
    &&& -b <= m.m13 <= b
    &&& -b <= m.m20 <= b
    &&& -b <= m.m21 <= b
    &&& -b <= m.m22 <= b
    &&& -b <= m.m23 <= b
    &&& -b <= m.m30 <= b
    &&& -b <= m.m31 <= b
    &&& -b <= m.m32 <= b
    &&& -b <= m.m33 <= b
}


/// Entry (i, j) of the model, row-major.
pub open spec fn entry_model(m: MatrixModel, i: int, j: int) -> int {
    if i == 0 {
        if j == 0 { m.m00 } else if j == 1 { m.m01 } else if j == 2 { m.m02 } else { m.m03 }
    } else if i == 1 {
        if j == 0 { m.m10 } else if j == 1 { m.m11 } else if j == 2 { m.m12 } else { m.m13 }
    } else if i == 2 {
        if j == 0 { m.m20 } else if j == 1 { m.m21 } else if j == 2 { m.m22 } else { m.m23 }
    } else {
        if j == 0 { m.m30 } else if j == 1 { m.m31 } else if j == 2 { m.m32 } else { m.m33 }
    }
}

/// A 4x4 matrix of kernel scalars. Value type; equality is entry-wise.
#[derive(Clone, Copy, PartialEq, Eq, Structural, Debug)]
pub struct Matrix4x4 {
    m00: i64, m01: i64, m02: i64, m03: i64,
    m10: i64, m11: i64, m12: i64, m13: i64,
    m20: i64, m21: i64, m22: i64, m23: i64,
    m30: i64, m31: i64, m32: i64, m33: i64,
}

impl View for Matrix4x4 {
    type V = MatrixModel;

    closed spec fn view(&self) -> MatrixModel {
        MatrixModel {
            m00: self.m00 as int, m01: self.m01 as int, m02: self.m02 as int, m03: self.m03 as int,
            m10: self.m10 as int, m11: self.m11 as int, m12: self.m12 as int, m13: self.m13 as int,
            m20: self.m20 as int, m21: self.m21 as int, m22: self.m22 as int, m23: self.m23 as int,
            m30: self.m30 as int, m31: self.m31 as int, m32: self.m32 as int, m33: self.m33 as int,
        }
    }
}

/// Exact four-term dot product on bounded scalars; the workhorse of the
/// matrix product and of point evaluation.
pub(crate) fn dot4(a0: i64, a1: i64, a2: i64, a3: i64, b0: i64, b1: i64, b2: i64, b3: i64) -> (r:
    i64)
    requires
        -ENTRY_LIMIT <= a0 <= ENTRY_LIMIT,
        -ENTRY_LIMIT <= a1 <= ENTRY_LIMIT,
        -ENTRY_LIMIT <= a2 <= ENTRY_LIMIT,
        -ENTRY_LIMIT <= a3 <= ENTRY_LIMIT,
        -ENTRY_LIMIT <= b0 <= ENTRY_LIMIT,
        -ENTRY_LIMIT <= b1 <= ENTRY_LIMIT,
        -ENTRY_LIMIT <= b2 <= ENTRY_LIMIT,
        -ENTRY_LIMIT <= b3 <= ENTRY_LIMIT,
    ensures
        r == a0 * b0 + a1 * b1 + a2 * b2 + a3 * b3,
{
    proof {
        lemma_mul_bound(a0 as int, b0 as int, ENTRY_LIMIT as int, ENTRY_LIMIT as int);
        lemma_mul_bound(a1 as int, b1 as int, ENTRY_LIMIT as int, ENTRY_LIMIT as int);
        lemma_mul_bound(a2 as int, b2 as int, ENTRY_LIMIT as int, ENTRY_LIMIT as int);
        lemma_mul_bound(a3 as int, b3 as int, ENTRY_LIMIT as int, ENTRY_LIMIT as int);
    }
    a0 * b0 + a1 * b1 + a2 * b2 + a3 * b3
}

impl Matrix4x4 {
    /// Construct from sixteen scalars in row-major order.
    pub fn new(
        m00: i64, m01: i64, m02: i64, m03: i64,
        m10: i64, m11: i64, m12: i64, m13: i64,
        m20: i64, m21: i64, m22: i64, m23: i64,
        m30: i64, m31: i64, m32: i64, m33: i64,
    ) -> (r: Matrix4x4)
        ensures
            r@ == (MatrixModel {
                m00: m00 as int, m01: m01 as int, m02: m02 as int, m03: m03 as int,
                m10: m10 as int, m11: m11 as int, m12: m12 as int, m13: m13 as int,
                m20: m20 as int, m21: m21 as int, m22: m22 as int, m23: m23 as int,
                m30: m30 as int, m31: m31 as int, m32: m32 as int, m33: m33 as int,
            }),
    {
        Matrix4x4 {
            m00, m01, m02, m03,
            m10, m11, m12, m13,
            m20, m21, m22, m23,
            m30, m31, m32, m33,
        }
    }

    /// Identity-shaped matrix: `diag` on the main diagonal, zero elsewhere.
    pub fn new_ident(diag: i64) -> (r: Matrix4x4)
        ensures
            r@ == ident_model(diag as int),
    {
        Matrix4x4::new(
            diag, 0, 0, 0,
            0, diag, 0, 0,
            0, 0, diag, 0,
            0, 0, 0, diag,
        )
    }


    /// Read entry (row, col), row-major.
    pub fn entry(&self, row: usize, col: usize) -> (r: i64)
        requires
            row < 4,
            col < 4,
        ensures
            r as int == entry_model(self@, row as int, col as int),
    {
        if row == 0 {
            if col == 0 { self.m00 } else if col == 1 { self.m01 } else if col == 2 { self.m02 } else { self.m03 }
        } else if row == 1 {
            if col == 0 { self.m10 } else if col == 1 { self.m11 } else if col == 2 { self.m12 } else { self.m13 }
        } else if row == 2 {
            if col == 0 { self.m20 } else if col == 1 { self.m21 } else if col == 2 { self.m22 } else { self.m23 }
        } else {
            if col == 0 { self.m30 } else if col == 1 { self.m31 } else if col == 2 { self.m32 } else { self.m33 }
        }
    }

    /// The standard matrix product, computed exactly.
    pub fn times(&self, op: &Matrix4x4) -> (r: Matrix4x4)
        requires
            bounded(self@, ENTRY_LIMIT as int),
            bounded(op@, ENTRY_LIMIT as int),
        ensures
            r@ == mul_model(self@, op@),
    {
        let e00 = dot4(self.m00, self.m01, self.m02, self.m03, op.m00, op.m10, op.m20, op.m30);
        let e01 = dot4(self.m00, self.m01, self.m02, self.m03, op.m01, op.m11, op.m21, op.m31);
        let e02 = dot4(self.m00, self.m01, self.m02, self.m03, op.m02, op.m12, op.m22, op.m32);
        let e03 = dot4(self.m00, self.m01, self.m02, self.m03, op.m03, op.m13, op.m23, op.m33);
        let e10 = dot4(self.m10, self.m11, self.m12, self.m13, op.m00, op.m10, op.m20, op.m30);
        let e11 = dot4(self.m10, self.m11, self.m12, self.m13, op.m01, op.m11, op.m21, op.m31);
        let e12 = dot4(self.m10, self.m11, self.m12, self.m13, op.m02, op.m12, op.m22, op.m32);
        let e13 = dot4(self.m10, self.m11, self.m12, self.m13, op.m03, op.m13, op.m23, op.m33);
        let e20 = dot4(self.m20, self.m21, self.m22, self.m23, op.m00, op.m10, op.m20, op.m30);
        let e21 = dot4(self.m20, self.m21, self.m22, self.m23, op.m01, op.m11, op.m21, op.m31);
        let e22 = dot4(self.m20, self.m21, self.m22, self.m23, op.m02, op.m12, op.m22, op.m32);
        let e23 = dot4(self.m20, self.m21, self.m22, self.m23, op.m03, op.m13, op.m23, op.m33);
        let e30 = dot4(self.m30, self.m31, self.m32, self.m33, op.m00, op.m10, op.m20, op.m30);
        let e31 = dot4(self.m30, self.m31, self.m32, self.m33, op.m01, op.m11, op.m21, op.m31);
        let e32 = dot4(self.m30, self.m31, self.m32, self.m33, op.m02, op.m12, op.m22, op.m32);
        let e33 = dot4(self.m30, self.m31, self.m32, self.m33, op.m03, op.m13, op.m23, op.m33);
        Matrix4x4::new(
            e00, e01, e02, e03,
            e10, e11, e12, e13,
            e20, e21, e22, e23,
            e30, e31, e32, e33,
        )
    }
}

/// Multiplying by the true identity, on either side, changes nothing.
pub proof fn lemma_identity_neutral(m: MatrixModel)
    ensures
        mul_model(m, ident_model(1)) == m,
        mul_model(ident_model(1), m) == m,
{
}

/// Right distribution of a product over a four-term sum.
pub(crate) proof fn lemma_dist_right(x0: int, x1: int, x2: int, x3: int, s: int)
    ensures
        (x0 + x1 + x2 + x3) * s == x0 * s + x1 * s + x2 * s + x3 * s,
{
    assert((x0 + x1 + x2 + x3) * s == x0 * s + x1 * s + x2 * s + x3 * s) by (nonlinear_arith);
}

/// Left distribution of a product over a four-term sum.
pub(crate) proof fn lemma_dist_left(s: int, x0: int, x1: int, x2: int, x3: int)
    ensures
        s * (x0 + x1 + x2 + x3) == s * x0 + s * x1 + s * x2 + s * x3,
{
    assert(s * (x0 + x1 + x2 + x3) == s * x0 + s * x1 + s * x2 + s * x3) by (nonlinear_arith);
}

/// Associativity of a triple product.
pub(crate) proof fn lemma_assoc3(x: int, y: int, z: int)
    ensures
        (x * y) * z == x * (y * z),
{
    assert((x * y) * z == x * (y * z)) by (nonlinear_arith);
}

/// One entry of the associativity identity: a row of sums of products,
/// re-associated.
proof fn lemma_trilinear(
    p0: int, p1: int, p2: int, p3: int,
    b00: int, b01: int, b02: int, b03: int,
    b10: int, b11: int, b12: int, b13: int,
    b20: int, b21: int, b22: int, b23: int,
    b30: int, b31: int, b32: int, b33: int,
    q0: int, q1: int, q2: int, q3: int,
)
    ensures
        (p0 * b00 + p1 * b10 + p2 * b20 + p3 * b30) * q0
            + (p0 * b01 + p1 * b11 + p2 * b21 + p3 * b31) * q1
            + (p0 * b02 + p1 * b12 + p2 * b22 + p3 * b32) * q2
            + (p0 * b03 + p1 * b13 + p2 * b23 + p3 * b33) * q3
        == p0 * (b00 * q0 + b01 * q1 + b02 * q2 + b03 * q3)
            + p1 * (b10 * q0 + b11 * q1 + b12 * q2 + b13 * q3)
            + p2 * (b20 * q0 + b21 * q1 + b22 * q2 + b23 * q3)
            + p3 * (b30 * q0 + b31 * q1 + b32 * q2 + b33 * q3),
{
    lemma_dist_right(p0 * b00, p1 * b10, p2 * b20, p3 * b30, q0);
    lemma_dist_right(p0 * b01, p1 * b11, p2 * b21, p3 * b31, q1);
    lemma_dist_right(p0 * b02, p1 * b12, p2 * b22, p3 * b32, q2);
    lemma_dist_right(p0 * b03, p1 * b13, p2 * b23, p3 * b33, q3);
    lemma_dist_left(p0, b00 * q0, b01 * q1, b02 * q2, b03 * q3);
    lemma_dist_left(p1, b10 * q0, b11 * q1, b12 * q2, b13 * q3);
    lemma_dist_left(p2, b20 * q0, b21 * q1, b22 * q2, b23 * q3);
    lemma_dist_left(p3, b30 * q0, b31 * q1, b32 * q2, b33 * q3);
    lemma_assoc3(p0, b00, q0);
    lemma_assoc3(p0, b01, q1);
    lemma_assoc3(p0, b02, q2);
    lemma_assoc3(p0, b03, q3);
    lemma_assoc3(p1, b10, q0);
    lemma_assoc3(p1, b11, q1);
    lemma_assoc3(p1, b12, q2);
    lemma_assoc3(p1, b13, q3);
    lemma_assoc3(p2, b20, q0);
    lemma_assoc3(p2, b21, q1);
    lemma_assoc3(p2, b22, q2);
    lemma_assoc3(p2, b23, q3);
    lemma_assoc3(p3, b30, q0);
    lemma_assoc3(p3, b31, q1);
    lemma_assoc3(p3, b32, q2);
    lemma_assoc3(p3, b33, q3);
}

/// The matrix product is associative.
pub proof fn lemma_mul_associative(a: MatrixModel, b: MatrixModel, c: MatrixModel)
    ensures
        mul_model(mul_model(a, b), c) == mul_model(a, mul_model(b, c)),
{
    lemma_trilinear(a.m00, a.m01, a.m02, a.m03, b.m00, b.m01, b.m02, b.m03, b.m10, b.m11, b.m12, b.m13, b.m20, b.m21, b.m22, b.m23, b.m30, b.m31, b.m32, b.m33, c.m00, c.m10, c.m20, c.m30);
    lemma_trilinear(a.m00, a.m01, a.m02, a.m03, b.m00, b.m01, b.m02, b.m03, b.m10, b.m11, b.m12, b.m13, b.m20, b.m21, b.m22, b.m23, b.m30, b.m31, b.m32, b.m33, c.m01, c.m11, c.m21, c.m31);
    lemma_trilinear(a.m00, a.m01, a.m02, a.m03, b.m00, b.m01, b.m02, b.m03, b.m10, b.m11, b.m12, b.m13, b.m20, b.m21, b.m22, b.m23, b.m30, b.m31, b.m32, b.m33, c.m02, c.m12, c.m22, c.m32);
    lemma_trilinear(a.m00, a.m01, a.m02, a.m03, b.m00, b.m01, b.m02, b.m03, b.m10, b.m11, b.m12, b.m13, b.m20, b.m21, b.m22, b.m23, b.m30, b.m31, b.m32, b.m33, c.m03, c.m13, c.m23, c.m33);
    lemma_trilinear(a.m10, a.m11, a.m12, a.m13, b.m00, b.m01, b.m02, b.m03, b.m10, b.m11, b.m12, b.m13, b.m20, b.m21, b.m22, b.m23, b.m30, b.m31, b.m32, b.m33, c.m00, c.m10, c.m20, c.m30);
    lemma_trilinear(a.m10, a.m11, a.m12, a.m13, b.m00, b.m01, b.m02, b.m03, b.m10, b.m11, b.m12, b.m13, b.m20, b.m21, b.m22, b.m23, b.m30, b.m31, b.m32, b.m33, c.m01, c.m11, c.m21, c.m31);
    lemma_trilinear(a.m10, a.m11, a.m12, a.m13, b.m00, b.m01, b.m02, b.m03, b.m10, b.m11, b.m12, b.m13, b.m20, b.m21, b.m22, b.m23, b.m30, b.m31, b.m32, b.m33, c.m02, c.m12, c.m22, c.m32);
    lemma_trilinear(a.m10, a.m11, a.m12, a.m13, b.m00, b.m01, b.m02, b.m03, b.m10, b.m11, b.m12, b.m13, b.m20, b.m21, b.m22, b.m23, b.m30, b.m31, b.m32, b.m33, c.m03, c.m13, c.m23, c.m33);
    lemma_trilinear(a.m20, a.m21, a.m22, a.m23, b.m00, b.m01, b.m02, b.m03, b.m10, b.m11, b.m12, b.m13, b.m20, b.m21, b.m22, b.m23, b.m30, b.m31, b.m32, b.m33, c.m00, c.m10, c.m20, c.m30);
    lemma_trilinear(a.m20, a.m21, a.m22, a.m23, b.m00, b.m01, b.m02, b.m03, b.m10, b.m11, b.m12, b.m13, b.m20, b.m21, b.m22, b.m23, b.m30, b.m31, b.m32, b.m33, c.m01, c.m11, c.m21, c.m31);
    lemma_trilinear(a.m20, a.m21, a.m22, a.m23, b.m00, b.m01, b.m02, b.m03, b.m10, b.m11, b.m12, b.m13, b.m20, b.m21, b.m22, b.m23, b.m30, b.m31, b.m32, b.m33, c.m02, c.m12, c.m22, c.m32);
    lemma_trilinear(a.m20, a.m21, a.m22, a.m23, b.m00, b.m01, b.m02, b.m03, b.m10, b.m11, b.m12, b.m13, b.m20, b.m21, b.m22, b.m23, b.m30, b.m31, b.m32, b.m33, c.m03, c.m13, c.m23, c.m33);
    lemma_trilinear(a.m30, a.m31, a.m32, a.m33, b.m00, b.m01, b.m02, b.m03, b.m10, b.m11, b.m12, b.m13, b.m20, b.m21, b.m22, b.m23, b.m30, b.m31, b.m32, b.m33, c.m00, c.m10, c.m20, c.m30);
    lemma_trilinear(a.m30, a.m31, a.m32, a.m33, b.m00, b.m01, b.m02, b.m03, b.m10, b.m11, b.m12, b.m13, b.m20, b.m21, b.m22, b.m23, b.m30, b.m31, b.m32, b.m33, c.m01, c.m11, c.m21, c.m31);
    lemma_trilinear(a.m30, a.m31, a.m32, a.m33, b.m00, b.m01, b.m02, b.m03, b.m10, b.m11, b.m12, b.m13, b.m20, b.m21, b.m22, b.m23, b.m30, b.m31, b.m32, b.m33, c.m02, c.m12, c.m22, c.m32);
    lemma_trilinear(a.m30, a.m31, a.m32, a.m33, b.m00, b.m01, b.m02, b.m03, b.m10, b.m11, b.m12, b.m13, b.m20, b.m21, b.m22, b.m23, b.m30, b.m31, b.m32, b.m33, c.m03, c.m13, c.m23, c.m33);
}

/// The 3x3 determinant of the entries (a b c / d e f / g h i).
pub open spec fn det3_model(
    a: int, b: int, c: int,
    d: int, e: int, f: int,
    g: int, h: int, i: int,
) -> int {
    a * (e * i - f * h) - b * (d * i - f * g) + c * (d * h - e * g)
}

/// The determinant, by cofactor expansion along the top row.
pub open spec fn det_model(m: MatrixModel) -> int {
    m.m00 * det3_model(m.m11, m.m12, m.m13, m.m21, m.m22, m.m23, m.m31, m.m32, m.m33)
        - m.m01 * det3_model(m.m10, m.m12, m.m13, m.m20, m.m22, m.m23, m.m30, m.m32, m.m33)
        + m.m02 * det3_model(m.m10, m.m11, m.m13, m.m20, m.m21, m.m23, m.m30, m.m31, m.m33)
        - m.m03 * det3_model(m.m10, m.m11, m.m12, m.m20, m.m21, m.m22, m.m30, m.m31, m.m32)
}


/// Cofactor minor (r, c): the 3x3 determinant of the entries left after
/// deleting row r and column c.
pub open spec fn cof_model(m: MatrixModel, r: int, c: int) -> int {
    if r == 0 {
        if c == 0 {
            det3_model(m.m11, m.m12, m.m13, m.m21, m.m22, m.m23, m.m31, m.m32, m.m33)
        } else if c == 1 {
            det3_model(m.m10, m.m12, m.m13, m.m20, m.m22, m.m23, m.m30, m.m32, m.m33)
        } else if c == 2 {
            det3_model(m.m10, m.m11, m.m13, m.m20, m.m21, m.m23, m.m30, m.m31, m.m33)
        } else {
            det3_model(m.m10, m.m11, m.m12, m.m20, m.m21, m.m22, m.m30, m.m31, m.m32)
        }
    } else if r == 1 {
        if c == 0 {
            det3_model(m.m01, m.m02, m.m03, m.m21, m.m22, m.m23, m.m31, m.m32, m.m33)
        } else if c == 1 {
            det3_model(m.m00, m.m02, m.m03, m.m20, m.m22, m.m23, m.m30, m.m32, m.m33)
        } else if c == 2 {
            det3_model(m.m00, m.m01, m.m03, m.m20, m.m21, m.m23, m.m30, m.m31, m.m33)
        } else {
            det3_model(m.m00, m.m01, m.m02, m.m20, m.m21, m.m22, m.m30, m.m31, m.m32)
        }
    } else if r == 2 {
        if c == 0 {
            det3_model(m.m01, m.m02, m.m03, m.m11, m.m12, m.m13, m.m31, m.m32, m.m33)
        } else if c == 1 {
            det3_model(m.m00, m.m02, m.m03, m.m10, m.m12, m.m13, m.m30, m.m32, m.m33)
        } else if c == 2 {
            det3_model(m.m00, m.m01, m.m03, m.m10, m.m11, m.m13, m.m30, m.m31, m.m33)
        } else {
            det3_model(m.m00, m.m01, m.m02, m.m10, m.m11, m.m12, m.m30, m.m31, m.m32)
        }
    } else {
        if c == 0 {
            det3_model(m.m01, m.m02, m.m03, m.m11, m.m12, m.m13, m.m21, m.m22, m.m23)
        } else if c == 1 {
            det3_model(m.m00, m.m02, m.m03, m.m10, m.m12, m.m13, m.m20, m.m22, m.m23)
        } else if c == 2 {
            det3_model(m.m00, m.m01, m.m03, m.m10, m.m11, m.m13, m.m20, m.m21, m.m23)
        } else {
            det3_model(m.m00, m.m01, m.m02, m.m10, m.m11, m.m12, m.m20, m.m21, m.m22)
        }
    }
}

/// Entry (i, j) of the inverse candidate: the signed cofactor of the
/// transposed position, divided (truncating) by the determinant.
pub open spec fn inv_entry_model(m: MatrixModel, i: int, j: int) -> int {
    if (i + j) % 2 == 0 {
        tdiv(cof_model(m, j, i), det_model(m))
    } else {
        tdiv(-cof_model(m, j, i), det_model(m))
    }
}

/// The inverse candidate matrix: the adjugate divided entry-wise by the
/// determinant.
pub open spec fn inv_candidate_model(m: MatrixModel) -> MatrixModel {
    MatrixModel {
        m00: inv_entry_model(m, 0, 0), m01: inv_entry_model(m, 0, 1), m02: inv_entry_model(m, 0, 2), m03: inv_entry_model(m, 0, 3),
        m10: inv_entry_model(m, 1, 0), m11: inv_entry_model(m, 1, 1), m12: inv_entry_model(m, 1, 2), m13: inv_entry_model(m, 1, 3),
        m20: inv_entry_model(m, 2, 0), m21: inv_entry_model(m, 2, 1), m22: inv_entry_model(m, 2, 2), m23: inv_entry_model(m, 2, 3),
        m30: inv_entry_model(m, 3, 0), m31: inv_entry_model(m, 3, 1), m32: inv_entry_model(m, 3, 2), m33: inv_entry_model(m, 3, 3),
    }
}

/// Every entry of the inverse candidate fits the kernel scalar.
pub open spec fn inv_entries_fit(m: MatrixModel) -> bool {
    &&& i64::MIN <= inv_entry_model(m, 0, 0) <= i64::MAX
    &&& i64::MIN <= inv_entry_model(m, 0, 1) <= i64::MAX
    &&& i64::MIN <= inv_entry_model(m, 0, 2) <= i64::MAX
    &&& i64::MIN <= inv_entry_model(m, 0, 3) <= i64::MAX
    &&& i64::MIN <= inv_entry_model(m, 1, 0) <= i64::MAX
    &&& i64::MIN <= inv_entry_model(m, 1, 1) <= i64::MAX
    &&& i64::MIN <= inv_entry_model(m, 1, 2) <= i64::MAX
    &&& i64::MIN <= inv_entry_model(m, 1, 3) <= i64::MAX
    &&& i64::MIN <= inv_entry_model(m, 2, 0) <= i64::MAX
    &&& i64::MIN <= inv_entry_model(m, 2, 1) <= i64::MAX
    &&& i64::MIN <= inv_entry_model(m, 2, 2) <= i64::MAX
    &&& i64::MIN <= inv_entry_model(m, 2, 3) <= i64::MAX
    &&& i64::MIN <= inv_entry_model(m, 3, 0) <= i64::MAX
    &&& i64::MIN <= inv_entry_model(m, 3, 1) <= i64::MAX
    &&& i64::MIN <= inv_entry_model(m, 3, 2) <= i64::MAX
    &&& i64::MIN <= inv_entry_model(m, 3, 3) <= i64::MAX
}

/// The matrix has an exact scalar inverse: a nonzero determinant, a
/// representable candidate, and the candidate's product with the matrix, in
/// both orders, is the true identity.
pub open spec fn has_exact_inverse(m: MatrixModel) -> bool {
    &&& det_model(m) != 0
    &&& inv_entries_fit(m)
    &&& mul_model(m, inv_candidate_model(m)) == ident_model(1)
    &&& mul_model(inv_candidate_model(m), m) == ident_model(1)
}

/// Exact 3x3 determinant of widened, bounded entries; the bound keeps every
/// intermediate far inside the wide machine range.
fn det3w(
    a: i128, b: i128, c: i128,
    d: i128, e: i128, f: i128,
    g: i128, h: i128, i: i128,
) -> (r: i128)
    requires
        -ENTRY_LIMIT <= a <= ENTRY_LIMIT,
        -ENTRY_LIMIT <= b <= ENTRY_LIMIT,
        -ENTRY_LIMIT <= c <= ENTRY_LIMIT,
        -ENTRY_LIMIT <= d <= ENTRY_LIMIT,
        -ENTRY_LIMIT <= e <= ENTRY_LIMIT,
        -ENTRY_LIMIT <= f <= ENTRY_LIMIT,
        -ENTRY_LIMIT <= g <= ENTRY_LIMIT,
        -ENTRY_LIMIT <= h <= ENTRY_LIMIT,
        -ENTRY_LIMIT <= i <= ENTRY_LIMIT,
    ensures
        r == det3_model(
            a as int, b as int, c as int,
            d as int, e as int, f as int,
            g as int, h as int, i as int,
        ),
        -6 * (ENTRY_LIMIT as int) * (ENTRY_LIMIT as int) * (ENTRY_LIMIT as int) <= r
            <= 6 * (ENTRY_LIMIT as int) * (ENTRY_LIMIT as int) * (ENTRY_LIMIT as int),
{
    let ghost l = ENTRY_LIMIT as int;
    proof {
        lemma_mul_bound(e as int, i as int, l, l);
        lemma_mul_bound(f as int, h as int, l, l);
        lemma_mul_bound(d as int, i as int, l, l);
        lemma_mul_bound(f as int, g as int, l, l);
        lemma_mul_bound(d as int, h as int, l, l);
        lemma_mul_bound(e as int, g as int, l, l);
    }
    let m1 = e * i - f * h;
    let m2 = d * i - f * g;
    let m3 = d * h - e * g;
    proof {
        lemma_mul_bound(a as int, m1 as int, l, 2 * l * l);
        lemma_mul_bound(b as int, m2 as int, l, 2 * l * l);
        lemma_mul_bound(c as int, m3 as int, l, 2 * l * l);
    }
    a * m1 - b * m2 + c * m3
}

/// The truncating quotient of a cofactor by the determinant, as a candidate
/// inverse entry; `None` when it does not fit the kernel scalar.
fn quot(num: i128, det: i128) -> (r: Option<i64>)
    requires
        det != 0,
    ensures
        r matches Some(q) ==> q as int == tdiv(num as int, det as int),
        r is None ==> !(i64::MIN <= tdiv(num as int, det as int) <= i64::MAX),
{
    match num.checked_div(det) {
        Some(q) => {
            if i64::MIN as i128 <= q && q <= i64::MAX as i128 {
                Some(q as i64)
            } else {
                None
            }
        },
        None => None,
    }
}

/// Exact four-term dot product of arbitrary scalars against bounded ones,
/// in wide arithmetic; used to check a candidate inverse.
fn dot4_wide(a0: i64, a1: i64, a2: i64, a3: i64, b0: i64, b1: i64, b2: i64, b3: i64) -> (r: i128)
    requires
        -ENTRY_LIMIT <= b0 <= ENTRY_LIMIT,
        -ENTRY_LIMIT <= b1 <= ENTRY_LIMIT,
        -ENTRY_LIMIT <= b2 <= ENTRY_LIMIT,
        -ENTRY_LIMIT <= b3 <= ENTRY_LIMIT,
    ensures
        r == a0 * b0 + a1 * b1 + a2 * b2 + a3 * b3,
        r == b0 * a0 + b1 * a1 + b2 * a2 + b3 * a3,
{
    let ghost big = 9223372036854775808int;
    let ghost l = ENTRY_LIMIT as int;
    proof {
        lemma_mul_bound(a0 as int, b0 as int, big, l);
        lemma_mul_bound(a1 as int, b1 as int, big, l);
        lemma_mul_bound(a2 as int, b2 as int, big, l);
        lemma_mul_bound(a3 as int, b3 as int, big, l);
        assert(a0 * b0 == b0 * a0) by (nonlinear_arith);
        assert(a1 * b1 == b1 * a1) by (nonlinear_arith);
        assert(a2 * b2 == b2 * a2) by (nonlinear_arith);
        assert(a3 * b3 == b3 * a3) by (nonlinear_arith);
    }
    (a0 as i128) * (b0 as i128) + (a1 as i128) * (b1 as i128) + (a2 as i128) * (b2 as i128) + (
    a3 as i128) * (b3 as i128)
}

impl Matrix4x4 {
    /// The exact inverse: the matrix whose product with `self`, in both
    /// orders, is the true identity. Computed by cofactor expansion (the
    /// adjugate divided by the determinant) and then checked against the
    /// identity, which is what the contract rests on. `None` is the domain
    /// error: the determinant is zero — then no inverse exists at all — or
    /// no matrix of kernel scalars is an exact inverse.
    pub fn inverse(&self) -> (r: Option<Matrix4x4>)
        requires
            bounded(self@, ENTRY_LIMIT as int),
        ensures
            r is Some <==> has_exact_inverse(self@),
            r matches Some(n) ==> n@ == inv_candidate_model(self@)
                && mul_model(self@, n@) == ident_model(1)
                && mul_model(n@, self@) == ident_model(1),
    {
        let ghost l = ENTRY_LIMIT as int;
        let a00 = self.m00 as i128; let a01 = self.m01 as i128; let a02 = self.m02 as i128; let a03 = self.m03 as i128;
        let a10 = self.m10 as i128; let a11 = self.m11 as i128; let a12 = self.m12 as i128; let a13 = self.m13 as i128;
        let a20 = self.m20 as i128; let a21 = self.m21 as i128; let a22 = self.m22 as i128; let a23 = self.m23 as i128;
        let a30 = self.m30 as i128; let a31 = self.m31 as i128; let a32 = self.m32 as i128; let a33 = self.m33 as i128;
        let c00 = det3w(a11, a12, a13, a21, a22, a23, a31, a32, a33);
        let c01 = det3w(a10, a12, a13, a20, a22, a23, a30, a32, a33);
        let c02 = det3w(a10, a11, a13, a20, a21, a23, a30, a31, a33);
        let c03 = det3w(a10, a11, a12, a20, a21, a22, a30, a31, a32);
        let c10 = det3w(a01, a02, a03, a21, a22, a23, a31, a32, a33);
        let c11 = det3w(a00, a02, a03, a20, a22, a23, a30, a32, a33);
        let c12 = det3w(a00, a01, a03, a20, a21, a23, a30, a31, a33);
        let c13 = det3w(a00, a01, a02, a20, a21, a22, a30, a31, a32);
        let c20 = det3w(a01, a02, a03, a11, a12, a13, a31, a32, a33);
        let c21 = det3w(a00, a02, a03, a10, a12, a13, a30, a32, a33);
        let c22 = det3w(a00, a01, a03, a10, a11, a13, a30, a31, a33);
        let c23 = det3w(a00, a01, a02, a10, a11, a12, a30, a31, a32);
        let c30 = det3w(a01, a02, a03, a11, a12, a13, a21, a22, a23);
        let c31 = det3w(a00, a02, a03, a10, a12, a13, a20, a22, a23);
        let c32 = det3w(a00, a01, a03, a10, a11, a13, a20, a21, a23);
        let c33 = det3w(a00, a01, a02, a10, a11, a12, a20, a21, a22);
        proof {
            lemma_mul_bound(a00 as int, c00 as int, l, 6 * l * l * l);
            lemma_mul_bound(a01 as int, c01 as int, l, 6 * l * l * l);
            lemma_mul_bound(a02 as int, c02 as int, l, 6 * l * l * l);
            lemma_mul_bound(a03 as int, c03 as int, l, 6 * l * l * l);
        }
        let det = a00 * c00 - a01 * c01 + a02 * c02 - a03 * c03;
        if det == 0 {
            return None;
        }
        let q00 = match quot(c00, det) { Some(v) => v, None => { return None; } };
        let q01 = match quot(-c10, det) { Some(v) => v, None => { return None; } };
        let q02 = match quot(c20, det) { Some(v) => v, None => { return None; } };
        let q03 = match quot(-c30, det) { Some(v) => v, None => { return None; } };
        let q10 = match quot(-c01, det) { Some(v) => v, None => { return None; } };
        let q11 = match quot(c11, det) { Some(v) => v, None => { return None; } };
        let q12 = match quot(-c21, det) { Some(v) => v, None => { return None; } };
        let q13 = match quot(c31, det) { Some(v) => v, None => { return None; } };
        let q20 = match quot(c02, det) { Some(v) => v, None => { return None; } };
        let q21 = match quot(-c12, det) { Some(v) => v, None => { return None; } };
        let q22 = match quot(c22, det) { Some(v) => v, None => { return None; } };
        let q23 = match quot(-c32, det) { Some(v) => v, None => { return None; } };
        let q30 = match quot(-c03, det) { Some(v) => v, None => { return None; } };
        let q31 = match quot(c13, det) { Some(v) => v, None => { return None; } };
        let q32 = match quot(-c23, det) { Some(v) => v, None => { return None; } };
        let q33 = match quot(c33, det) { Some(v) => v, None => { return None; } };
        let cand = Matrix4x4::new(
            q00, q01, q02, q03,
            q10, q11, q12, q13,
            q20, q21, q22, q23,
            q30, q31, q32, q33,
        );
        proof {
            assert(cand@ =~= inv_candidate_model(self@));
        }
        let p00 = dot4_wide(q00, q01, q02, q03, self.m00, self.m10, self.m20, self.m30); if p00 != 1 { return None; }
        let p01 = dot4_wide(q00, q01, q02, q03, self.m01, self.m11, self.m21, self.m31); if p01 != 0 { return None; }
        let p02 = dot4_wide(q00, q01, q02, q03, self.m02, self.m12, self.m22, self.m32); if p02 != 0 { return None; }
        let p03 = dot4_wide(q00, q01, q02, q03, self.m03, self.m13, self.m23, self.m33); if p03 != 0 { return None; }
        let p10 = dot4_wide(q10, q11, q12, q13, self.m00, self.m10, self.m20, self.m30); if p10 != 0 { return None; }
        let p11 = dot4_wide(q10, q11, q12, q13, self.m01, self.m11, self.m21, self.m31); if p11 != 1 { return None; }
        let p12 = dot4_wide(q10, q11, q12, q13, self.m02, self.m12, self.m22, self.m32); if p12 != 0 { return None; }
        let p13 = dot4_wide(q10, q11, q12, q13, self.m03, self.m13, self.m23, self.m33); if p13 != 0 { return None; }
        let p20 = dot4_wide(q20, q21, q22, q23, self.m00, self.m10, self.m20, self.m30); if p20 != 0 { return None; }
        let p21 = dot4_wide(q20, q21, q22, q23, self.m01, self.m11, self.m21, self.m31); if p21 != 0 { return None; }
        let p22 = dot4_wide(q20, q21, q22, q23, self.m02, self.m12, self.m22, self.m32); if p22 != 1 { return None; }
        let p23 = dot4_wide(q20, q21, q22, q23, self.m03, self.m13, self.m23, self.m33); if p23 != 0 { return None; }
        let p30 = dot4_wide(q30, q31, q32, q33, self.m00, self.m10, self.m20, self.m30); if p30 != 0 { return None; }
        let p31 = dot4_wide(q30, q31, q32, q33, self.m01, self.m11, self.m21, self.m31); if p31 != 0 { return None; }
        let p32 = dot4_wide(q30, q31, q32, q33, self.m02, self.m12, self.m22, self.m32); if p32 != 0 { return None; }
        let p33 = dot4_wide(q30, q31, q32, q33, self.m03, self.m13, self.m23, self.m33); if p33 != 1 { return None; }
        let s00 = dot4_wide(q00, q10, q20, q30, self.m00, self.m01, self.m02, self.m03); if s00 != 1 { return None; }
        let s01 = dot4_wide(q01, q11, q21, q31, self.m00, self.m01, self.m02, self.m03); if s01 != 0 { return None; }
        let s02 = dot4_wide(q02, q12, q22, q32, self.m00, self.m01, self.m02, self.m03); if s02 != 0 { return None; }
        let s03 = dot4_wide(q03, q13, q23, q33, self.m00, self.m01, self.m02, self.m03); if s03 != 0 { return None; }
        let s10 = dot4_wide(q00, q10, q20, q30, self.m10, self.m11, self.m12, self.m13); if s10 != 0 { return None; }
        let s11 = dot4_wide(q01, q11, q21, q31, self.m10, self.m11, self.m12, self.m13); if s11 != 1 { return None; }
        let s12 = dot4_wide(q02, q12, q22, q32, self.m10, self.m11, self.m12, self.m13); if s12 != 0 { return None; }
        let s13 = dot4_wide(q03, q13, q23, q33, self.m10, self.m11, self.m12, self.m13); if s13 != 0 { return None; }
        let s20 = dot4_wide(q00, q10, q20, q30, self.m20, self.m21, self.m22, self.m23); if s20 != 0 { return None; }
        let s21 = dot4_wide(q01, q11, q21, q31, self.m20, self.m21, self.m22, self.m23); if s21 != 0 { return None; }
        let s22 = dot4_wide(q02, q12, q22, q32, self.m20, self.m21, self.m22, self.m23); if s22 != 1 { return None; }
        let s23 = dot4_wide(q03, q13, q23, q33, self.m20, self.m21, self.m22, self.m23); if s23 != 0 { return None; }
        let s30 = dot4_wide(q00, q10, q20, q30, self.m30, self.m31, self.m32, self.m33); if s30 != 0 { return None; }
        let s31 = dot4_wide(q01, q11, q21, q31, self.m30, self.m31, self.m32, self.m33); if s31 != 0 { return None; }
        let s32 = dot4_wide(q02, q12, q22, q32, self.m30, self.m31, self.m32, self.m33); if s32 != 0 { return None; }
        let s33 = dot4_wide(q03, q13, q23, q33, self.m30, self.m31, self.m32, self.m33); if s33 != 1 { return None; }
        proof {
            assert(mul_model(cand@, self@).m00 == 1);
            assert(mul_model(self@, cand@).m00 == 1);
            assert(mul_model(cand@, self@).m01 == 0);
            assert(mul_model(self@, cand@).m01 == 0);
            assert(mul_model(cand@, self@).m02 == 0);
            assert(mul_model(self@, cand@).m02 == 0);
            assert(mul_model(cand@, self@).m03 == 0);
            assert(mul_model(self@, cand@).m03 == 0);
            assert(mul_model(cand@, self@).m10 == 0);
            assert(mul_model(self@, cand@).m10 == 0);
            assert(mul_model(cand@, self@).m11 == 1);
            assert(mul_model(self@, cand@).m11 == 1);
            assert(mul_model(cand@, self@).m12 == 0);
            assert(mul_model(self@, cand@).m12 == 0);
            assert(mul_model(cand@, self@).m13 == 0);
            assert(mul_model(self@, cand@).m13 == 0);
            assert(mul_model(cand@, self@).m20 == 0);
            assert(mul_model(self@, cand@).m20 == 0);
            assert(mul_model(cand@, self@).m21 == 0);
            assert(mul_model(self@, cand@).m21 == 0);
            assert(mul_model(cand@, self@).m22 == 1);
            assert(mul_model(self@, cand@).m22 == 1);
            assert(mul_model(cand@, self@).m23 == 0);
            assert(mul_model(self@, cand@).m23 == 0);
            assert(mul_model(cand@, self@).m30 == 0);
            assert(mul_model(self@, cand@).m30 == 0);
            assert(mul_model(cand@, self@).m31 == 0);
            assert(mul_model(self@, cand@).m31 == 0);
            assert(mul_model(cand@, self@).m32 == 0);
            assert(mul_model(self@, cand@).m32 == 0);
            assert(mul_model(cand@, self@).m33 == 1);
            assert(mul_model(self@, cand@).m33 == 1);
            assert(mul_model(cand@, self@) =~= ident_model(1));
            assert(mul_model(self@, cand@) =~= ident_model(1));
        }
        Some(cand)
    }
}

/// An exact two-sided inverse is unique: a left inverse and a right inverse
/// of the same matrix are equal.
pub proof fn lemma_inverse_unique(a: MatrixModel, b: MatrixModel, c: MatrixModel)
    requires
        mul_model(b, a) == ident_model(1),
        mul_model(a, c) == ident_model(1),
    ensures
        b == c,
{
    lemma_mul_associative(b, a, c);
    lemma_identity_neutral(b);
    lemma_identity_neutral(c);
}

} // verus!
