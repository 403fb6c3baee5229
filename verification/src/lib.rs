//! An exact affine-geometry kernel: 3-component vectors, 4x4 homogeneous
//! matrices, and composable affine transforms over integer scalars.
//!
//! Shapes and a camera are placed in a scene by composing transforms and
//! applying them to points and free vectors. All arithmetic here is exact:
//! the scalar is a machine integer, every operation states precisely which
//! mathematical value it returns, and overflow is ruled out by precondition.
//! Quantities that inherently need real arithmetic (vector length, trigonometric
//! rotation angles) are left to callers working in their own scalar domain.

use vstd::prelude::*;

pub mod matrix4x4;
pub mod transform;
pub mod vector3;

verus! {

/// Truncating integer division (quotient rounded toward zero), the behaviour
/// of `/` on machine integers, expressed over mathematical integers.
pub open spec fn tdiv(a: int, b: int) -> int {
    if a == 0 {
        0
    } else if a > 0 && b > 0 {
        a / b
    } else if a < 0 && b < 0 {
        (-a) / (-b)
    } else if a < 0 {
        -((-a) / b)
    } else {
        -(a / (-b))
    }
}


/// Bound on a product from bounds on its factors.
pub(crate) proof fn lemma_mul_bound(a: int, b: int, ca: int, cb: int)
    requires
        -ca <= a <= ca,
        -cb <= b <= cb,
        0 <= ca,
        0 <= cb,
    ensures
        -(ca * cb) <= a * b <= ca * cb,
{
    assert(-(ca * cb) <= a * b <= ca * cb) by (nonlinear_arith)
        requires
            -ca <= a <= ca,
            -cb <= b <= cb,
            0 <= ca,
            0 <= cb,
    ;
}

/// The capability set a scalar must offer to the vector algebra: copyable,
/// with a zero, ordered, and supporting exact addition, subtraction,
/// multiplication and truncating division within its range.
pub trait Number: Sized + Copy {
    /// The mathematical integer this scalar stands for.
    spec fn v(self) -> int;

    /// Which mathematical integers the scalar type can hold.
    spec fn in_range(x: int) -> bool;

    fn zero_value() -> (r: Self)
        ensures
            r.v() == 0,
    ;

    fn plus(self, o: Self) -> (r: Self)
        requires
            Self::in_range(self.v() + o.v()),
        ensures
            r.v() == self.v() + o.v(),
    ;

    fn minus(self, o: Self) -> (r: Self)
        requires
            Self::in_range(self.v() - o.v()),
        ensures
            r.v() == self.v() - o.v(),
    ;

    fn times(self, o: Self) -> (r: Self)
        requires
            Self::in_range(self.v() * o.v()),
        ensures
            r.v() == self.v() * o.v(),
    ;

    fn div_trunc(self, o: Self) -> (r: Self)
        requires
            o.v() != 0,
            Self::in_range(tdiv(self.v(), o.v())),
        ensures
            r.v() == tdiv(self.v(), o.v()),
    ;

    fn less_than(self, o: Self) -> (r: bool)
        ensures
            r == (self.v() < o.v()),
    ;
}

impl Number for i64 {
    open spec fn v(self) -> int {
        self as int
    }

    open spec fn in_range(x: int) -> bool {
        i64::MIN <= x <= i64::MAX
    }

    fn zero_value() -> i64 {
        0
    }

    fn plus(self, o: i64) -> i64 {
        self + o
    }

    fn minus(self, o: i64) -> i64 {
        self - o
    }

    fn times(self, o: i64) -> i64 {
        self * o
    }

    fn div_trunc(self, o: i64) -> i64 {
        match self.checked_div(o) {
            Some(q) => q,
            None => vstd::pervasive::unreached(),
        }
    }

    fn less_than(self, o: i64) -> bool {
        self < o
    }
}

impl Number for i32 {
    open spec fn v(self) -> int {
        self as int
    }

    open spec fn in_range(x: int) -> bool {
        i32::MIN <= x <= i32::MAX
    }

    fn zero_value() -> i32 {
        0
    }

    fn plus(self, o: i32) -> i32 {
        self + o
    }

    fn minus(self, o: i32) -> i32 {
        self - o
    }

    fn times(self, o: i32) -> i32 {
        self * o
    }

    fn div_trunc(self, o: i32) -> i32 {
        match self.checked_div(o) {
            Some(q) => q,
            None => vstd::pervasive::unreached(),
        }
    }

    fn less_than(self, o: i32) -> bool {
        self < o
    }
}

/// The scalar used for all geometric computation in this kernel.
pub type Scalar = i64;

} // verus!
