use vstd::prelude::*;

use crate::number::Number;
use crate::number::int_sqrt;
use crate::number::is_int_sqrt;
use crate::number::lemma_int_sqrt;

verus! {

/// A pair of fixed-point scalars with the usual componentwise algebra, dot
/// product, length and normalization. A value type: every operation returns a
/// new vector.
#[derive(Clone, Copy, Debug, PartialEq, Eq, Structural)]
pub struct Vector2 {
    pub x: Number,
    pub y: Number,
}

impl Vector2 {
    pub open spec fn spec_zero() -> Vector2 {
        Vector2 { x: Number { bits: 0 }, y: Number { bits: 0 } }
    }

    pub open spec fn spec_add(self, rhs: Vector2) -> Vector2 {
        Vector2 { x: self.x.spec_add(rhs.x), y: self.y.spec_add(rhs.y) }
    }

    pub open spec fn spec_sub(self, rhs: Vector2) -> Vector2 {
        Vector2 { x: self.x.spec_sub(rhs.x), y: self.y.spec_sub(rhs.y) }
    }

    pub open spec fn spec_mul(self, rhs: Vector2) -> Vector2 {
        Vector2 { x: self.x.spec_mul(rhs.x), y: self.y.spec_mul(rhs.y) }
    }

    pub open spec fn spec_div(self, rhs: Vector2) -> Vector2 {
        Vector2 { x: self.x.spec_div(rhs.x), y: self.y.spec_div(rhs.y) }
    }

    pub open spec fn spec_add_num(self, rhs: Number) -> Vector2 {
        Vector2 { x: self.x.spec_add(rhs), y: self.y.spec_add(rhs) }
    }

    pub open spec fn spec_sub_num(self, rhs: Number) -> Vector2 {
        Vector2 { x: self.x.spec_sub(rhs), y: self.y.spec_sub(rhs) }
    }

    pub open spec fn spec_mul_num(self, rhs: Number) -> Vector2 {
        Vector2 { x: self.x.spec_mul(rhs), y: self.y.spec_mul(rhs) }
    }

    pub open spec fn spec_div_num(self, rhs: Number) -> Vector2 {
        Vector2 { x: self.x.spec_div(rhs), y: self.y.spec_div(rhs) }
    }

    pub open spec fn spec_num_sub(lhs: Number, rhs: Vector2) -> Vector2 {
        Vector2 { x: lhs.spec_sub(rhs.x), y: lhs.spec_sub(rhs.y) }
    }

    pub open spec fn spec_num_div(lhs: Number, rhs: Vector2) -> Vector2 {
        Vector2 { x: lhs.spec_div(rhs.x), y: lhs.spec_div(rhs.y) }
    }

    pub open spec fn spec_neg(self) -> Vector2 {
        Vector2 { x: self.x.spec_neg(), y: self.y.spec_neg() }
    }

    pub open spec fn spec_dot(self, rhs: Vector2) -> Number {
        self.x.spec_mul(rhs.x).spec_add(self.y.spec_mul(rhs.y))
    }

    pub open spec fn spec_sqr_length(self) -> Number {
        self.spec_dot(self)
    }

    pub open spec fn spec_length(self) -> Number {
        self.spec_sqr_length().spec_sqrt()
    }

    pub open spec fn spec_normalized(self) -> Vector2 {
        let length = self.spec_length();
        if length.bits > 0 {
            self.spec_div_num(length)
        } else {
            Vector2::spec_zero()
        }
    }

    /// The zero vector, the identity of vector addition.
    pub fn zero() -> (r: Vector2)
        ensures
            r == Vector2::spec_zero(),
    {
        Vector2 { x: Number::zero(), y: Number::zero() }
    }

    pub fn add(self, rhs: Vector2) -> (r: Vector2)
        ensures
            r == self.spec_add(rhs),
    {
        Vector2 { x: self.x.add(rhs.x), y: self.y.add(rhs.y) }
    }

    pub fn sub(self, rhs: Vector2) -> (r: Vector2)
        ensures
            r == self.spec_sub(rhs),
    {
        Vector2 { x: self.x.sub(rhs.x), y: self.y.sub(rhs.y) }
    }

    pub fn mul(self, rhs: Vector2) -> (r: Vector2)
        ensures
            r == self.spec_mul(rhs),
    {
        Vector2 { x: self.x.mul(rhs.x), y: self.y.mul(rhs.y) }
    }

    pub fn div(self, rhs: Vector2) -> (r: Vector2)
        requires
            rhs.x.bits != 0,
            rhs.y.bits != 0,
        ensures
            r == self.spec_div(rhs),
    {
        Vector2 { x: self.x.div(rhs.x), y: self.y.div(rhs.y) }
    }

    pub fn add_num(self, rhs: Number) -> (r: Vector2)
        ensures
            r == self.spec_add_num(rhs),
    {
        Vector2 { x: self.x.add(rhs), y: self.y.add(rhs) }
    }

    pub fn sub_num(self, rhs: Number) -> (r: Vector2)
        ensures
            r == self.spec_sub_num(rhs),
    {
        Vector2 { x: self.x.sub(rhs), y: self.y.sub(rhs) }
    }

    pub fn mul_num(self, rhs: Number) -> (r: Vector2)
        ensures
            r == self.spec_mul_num(rhs),
    {
        Vector2 { x: self.x.mul(rhs), y: self.y.mul(rhs) }
    }

    pub fn div_num(self, rhs: Number) -> (r: Vector2)
        requires
            rhs.bits != 0,
        ensures
            r == self.spec_div_num(rhs),
    {
        Vector2 { x: self.x.div(rhs), y: self.y.div(rhs) }
    }

    /// Scalar plus vector; addition of scalars is commutative, so this is the
    /// same componentwise sum as `add_num`.
    pub fn num_add(lhs: Number, rhs: Vector2) -> (r: Vector2)
        ensures
            r == rhs.spec_add_num(lhs),
    {
        Vector2 { x: lhs.add(rhs.x), y: lhs.add(rhs.y) }
    }

    pub fn num_sub(lhs: Number, rhs: Vector2) -> (r: Vector2)
        ensures
            r == Vector2::spec_num_sub(lhs, rhs),
    {
        Vector2 { x: lhs.sub(rhs.x), y: lhs.sub(rhs.y) }
    }

    /// Scalar times vector; multiplication of scalars is commutative, so this
    /// is the same componentwise product as `mul_num`.
    pub fn num_mul(lhs: Number, rhs: Vector2) -> (r: Vector2)
        ensures
            r == rhs.spec_mul_num(lhs),
    {
        proof {
            assert(lhs.bits * rhs.x.bits == rhs.x.bits * lhs.bits) by (nonlinear_arith);
            assert(lhs.bits * rhs.y.bits == rhs.y.bits * lhs.bits) by (nonlinear_arith);
        }
        Vector2 { x: lhs.mul(rhs.x), y: lhs.mul(rhs.y) }
    }

    pub fn num_div(lhs: Number, rhs: Vector2) -> (r: Vector2)
        requires
            rhs.x.bits != 0,
            rhs.y.bits != 0,
        ensures
            r == Vector2::spec_num_div(lhs, rhs),
    {
        Vector2 { x: lhs.div(rhs.x), y: lhs.div(rhs.y) }
    }

    pub fn neg(self) -> (r: Vector2)
        ensures
            r == self.spec_neg(),
    {
        Vector2 { x: self.x.neg(), y: self.y.neg() }
    }

    pub fn dot(self, other: Vector2) -> (r: Number)
        ensures
            r == self.spec_dot(other),
    {
        self.x.mul(other.x).add(self.y.mul(other.y))
    }

    pub fn sqr_length(self) -> (r: Number)
        ensures
            r == self.spec_sqr_length(),
    {
        self.dot(self)
    }

    /// The length of the vector: the square root of the squared length. The
    /// squared length must not have wrapped to a negative bit pattern, since
    /// the square root of a negative operand is undefined.
    pub fn length(self) -> (r: Number)
        requires
            self.spec_sqr_length().bits >= 0,
        ensures
            r == self.spec_length(),
            is_int_sqrt(self.spec_sqr_length().bits as int, int_sqrt(self.spec_sqr_length().bits as int)),
    {
        self.sqr_length().sqrt()
    }

    /// The vector scaled to length one, or the zero vector when the length is
    /// not positive, which avoids a division by zero.
    pub fn normalized(self) -> (r: Vector2)
        requires
            self.spec_sqr_length().bits >= 0,
        ensures
            r == self.spec_normalized(),
    {
        let length = self.length();
        if length.bits > 0 {
            self.div_num(length)
        } else {
            Vector2::zero()
        }
    }

    /// The running sums of the first `k` vectors of the sequence, the zero
    /// vector for an empty prefix.
    pub open spec fn spec_sum_upto(s: Seq<Vector2>, k: int) -> Vector2
        decreases k,
    {
        if k <= 0 {
            Vector2::spec_zero()
        } else {
            Vector2::spec_sum_upto(s, k - 1).spec_add(s[k - 1])
        }
    }

    /// The sum of a sequence of vectors, accumulated left to right from the
    /// zero vector.
    pub open spec fn spec_sum(s: Seq<Vector2>) -> Vector2 {
        Vector2::spec_sum_upto(s, s.len() as int)
    }

    /// Sums a sequence of vectors, starting from the zero vector.
    pub fn sum(vs: &Vec<Vector2>) -> (r: Vector2)
        ensures
            r == Vector2::spec_sum(vs@),
    {
        let mut result = Vector2::zero();
        let n = vs.len();
        for i in 0..n
            invariant
                n == vs@.len(),
                result == Vector2::spec_sum_upto(vs@, i as int),
        {
            result = result.add(vs[i]);
        }
        result
    }
}

} // verus!
