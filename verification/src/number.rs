use vstd::prelude::*;

verus! {

/// Bit pattern of the scalar one: the scale factor 2^64 between a represented
/// value and its raw bit pattern.
pub const FRAC_ONE: i128 = 0x1_0000_0000_0000_0000;

/// Bit pattern of the scalar one half.
pub const HALF_BITS: i128 = 0x8000_0000_0000_0000;

/// Bit pattern of the square root of the scalar one: 2^32. The square root of
/// a bit pattern is scaled by this factor to land back in the encoding.
pub const SQRT_ONE: i128 = 0x1_0000_0000;

/// Reduces an unbounded integer to the `i128` it denotes in two's complement,
/// as wrapping arithmetic on bit patterns does.
pub open spec fn wrap_bits(x: int) -> i128 {
    vstd::wrapping::i128_specs::signed_crop(x)
}

/// Absolute value of an unbounded integer.
pub open spec fn int_abs(x: int) -> int {
    if x >= 0 {
        x
    } else {
        -x
    }
}

/// Quotient of `a` and `b` rounded toward zero, as machine division rounds.
pub open spec fn trunc_div(a: int, b: int) -> int {
    if (a < 0) == (b < 0) {
        int_abs(a) / int_abs(b)
    } else {
        -(int_abs(a) / int_abs(b))
    }
}

/// Holds when `n` is the integer square root of `x`, rounded down.
pub open spec fn is_int_sqrt(x: int, n: int) -> bool {
    0 <= n && n * n <= x && x < (n + 1) * (n + 1)
}

/// The integer square root of `x`, rounded down; meaningful for `x >= 0`.
pub open spec fn int_sqrt(x: int) -> int {
    choose|n: int| is_int_sqrt(x, n)
}

/// The integer square root of a nonnegative integer exists.
pub proof fn lemma_int_sqrt(x: int)
    requires
        x >= 0,
    ensures
        is_int_sqrt(x, int_sqrt(x)),
    decreases x,
{
    if x == 0 {
        assert(is_int_sqrt(0, 0));
    } else {
        lemma_int_sqrt(x - 1);
        let n = int_sqrt(x - 1);
        if x < (n + 1) * (n + 1) {
            assert(is_int_sqrt(x, n));
        } else {
            assert(is_int_sqrt(x, n + 1)) by (nonlinear_arith)
                requires
                    is_int_sqrt(x - 1, n),
                    x >= (n + 1) * (n + 1),
            ;
        }
    }
}

/// The integer square root is unique.
pub proof fn lemma_int_sqrt_unique(x: int, n1: int, n2: int)
    requires
        is_int_sqrt(x, n1),
        is_int_sqrt(x, n2),
    ensures
        n1 == n2,
{
    assert(n1 == n2) by (nonlinear_arith)
        requires
            is_int_sqrt(x, n1),
            is_int_sqrt(x, n2),
    ;
}

/// Deterministic signed fixed-point scalar: 64 integer bits and 64 fractional
/// bits, stored as the raw two's-complement bit pattern. The represented value
/// is `bits / 2^64`. Arithmetic wraps on overflow, so every operation is a
/// total function of the bit patterns and identical inputs always give
/// identical outputs, on every platform.
#[derive(Clone, Copy, Debug, PartialEq, Eq, Structural)]
pub struct Number {
    pub bits: i128,
}

impl Number {
    /// Sum, wrapping on overflow.
    pub open spec fn spec_add(self, rhs: Number) -> Number {
        Number { bits: wrap_bits(self.bits + rhs.bits) }
    }

    /// Difference, wrapping on overflow.
    pub open spec fn spec_sub(self, rhs: Number) -> Number {
        Number { bits: wrap_bits(self.bits - rhs.bits) }
    }

    /// Negation, wrapping on overflow.
    pub open spec fn spec_neg(self) -> Number {
        Number { bits: wrap_bits(-self.bits) }
    }

    /// Absolute value, wrapping on overflow.
    pub open spec fn spec_abs(self) -> Number {
        if self.bits < 0 {
            self.spec_neg()
        } else {
            self
        }
    }

    /// Product: the exact product of the bit patterns carries 128 fractional
    /// bits, so it is scaled down by 2^64, rounding toward negative infinity,
    /// and wraps on overflow.
    pub open spec fn spec_mul(self, rhs: Number) -> Number {
        Number { bits: wrap_bits((self.bits * rhs.bits) / (FRAC_ONE as int)) }
    }

    /// Quotient: the dividend is scaled up by 2^64 before the division, which
    /// rounds toward zero; wraps on overflow. Meaningful only for a nonzero
    /// divisor.
    pub open spec fn spec_div(self, rhs: Number) -> Number {
        Number { bits: wrap_bits(trunc_div(self.bits * FRAC_ONE as int, rhs.bits as int)) }
    }

    /// Square root: the integer square root of the bit pattern, rounded down,
    /// carries 32 fractional bits and is scaled up by 2^32. Meaningful only
    /// for a nonnegative operand.
    pub open spec fn spec_sqrt(self) -> Number {
        Number { bits: (int_sqrt(self.bits as int) * SQRT_ONE) as i128 }
    }

    /// The scalar zero.
    pub fn zero() -> (r: Number)
        ensures
            r.bits == 0,
    {
        Number { bits: 0 }
    }

    /// Builds the scalar with exactly the given bit pattern.
    pub fn from_bits(bits: i128) -> (r: Number)
        ensures
            r.bits == bits,
    {
        Number { bits }
    }

    /// The raw bit pattern of the scalar.
    pub fn to_bits(self) -> (r: i128)
        ensures
            r == self.bits,
    {
        self.bits
    }

    /// The scalar denoting the given integer exactly.
    pub fn from_int(i: i64) -> (r: Number)
        ensures
            r.bits == i * FRAC_ONE,
    {
        Number { bits: (i as i128) * FRAC_ONE }
    }

    pub fn add(self, rhs: Number) -> (r: Number)
        ensures
            r == self.spec_add(rhs),
    {
        proof {
            lemma_wrapping_add_is_wrap(self.bits, rhs.bits);
        }
        Number { bits: self.bits.wrapping_add(rhs.bits) }
    }

    pub fn sub(self, rhs: Number) -> (r: Number)
        ensures
            r == self.spec_sub(rhs),
    {
        proof {
            lemma_wrapping_sub_is_wrap(self.bits, rhs.bits);
        }
        Number { bits: self.bits.wrapping_sub(rhs.bits) }
    }

    pub fn neg(self) -> (r: Number)
        ensures
            r == self.spec_neg(),
    {
        if self.bits == i128::MIN {
            Number { bits: i128::MIN }
        } else {
            Number { bits: -self.bits }
        }
    }

    pub fn abs(self) -> (r: Number)
        ensures
            r == self.spec_abs(),
    {
        if self.bits < 0 {
            self.neg()
        } else {
            self
        }
    }

    pub fn mul(self, rhs: Number) -> (r: Number)
        ensures
            r == self.spec_mul(rhs),
    {
        Number { bits: raw_mul(self.bits, rhs.bits) }
    }

    pub fn div(self, rhs: Number) -> (r: Number)
        requires
            rhs.bits != 0,
        ensures
            r == self.spec_div(rhs),
    {
        Number { bits: raw_div(self.bits, rhs.bits) }
    }

    pub fn sqrt(self) -> (r: Number)
        requires
            self.bits >= 0,
        ensures
            r == self.spec_sqrt(),
            is_int_sqrt(self.bits as int, int_sqrt(self.bits as int)),
    {
        proof {
            lemma_int_sqrt(self.bits as int);
        }
        Number { bits: raw_sqrt(self.bits) }
    }

    /// Strict order on scalars; the encoding is monotonic, so this is the
    /// order of the bit patterns.
    pub fn lt(self, rhs: Number) -> (r: bool)
        ensures
            r == (self.bits < rhs.bits),
    {
        self.bits < rhs.bits
    }

    pub fn le(self, rhs: Number) -> (r: bool)
        ensures
            r == (self.bits <= rhs.bits),
    {
        self.bits <= rhs.bits
    }
}

/// Multiplying by the scalar one is exact in both operand orders.
pub proof fn lemma_mul_one(a: Number)
    ensures
        a.spec_mul((Number { bits: FRAC_ONE })) == a,
        (Number { bits: FRAC_ONE }).spec_mul(a) == a,
{
    vstd::arithmetic::div_mod::lemma_div_multiples_vanish(a.bits as int, FRAC_ONE as int);
    assert(a.bits * FRAC_ONE == FRAC_ONE * a.bits) by (nonlinear_arith);
}

/// Multiplying by the scalar negative one negates exactly, in both operand
/// orders.
pub proof fn lemma_mul_neg_one(a: Number)
    ensures
        a.spec_mul((Number { bits: (-FRAC_ONE) as i128 })) == a.spec_neg(),
        (Number { bits: (-FRAC_ONE) as i128 }).spec_mul(a) == a.spec_neg(),
{
    vstd::arithmetic::div_mod::lemma_div_multiples_vanish(-a.bits as int, FRAC_ONE as int);
    assert(a.bits * (-FRAC_ONE as int) == FRAC_ONE * (-a.bits as int)) by (nonlinear_arith);
    assert((-FRAC_ONE as int) * a.bits == FRAC_ONE * (-a.bits as int)) by (nonlinear_arith);
}

/// Multiplying by the scalar zero gives zero, in both operand orders.
pub proof fn lemma_mul_zero(a: Number)
    ensures
        a.spec_mul((Number { bits: 0 })) == (Number { bits: 0 }),
        (Number { bits: 0 }).spec_mul(a) == (Number { bits: 0 }),
{
    assert(a.bits * 0 == 0) by (nonlinear_arith);
    assert(0 * a.bits == 0) by (nonlinear_arith);
}

/// Dividing by the scalar one is exact.
pub proof fn lemma_div_one(a: Number)
    ensures
        a.spec_div((Number { bits: FRAC_ONE })) == a,
{
    if a.bits >= 0 {
        vstd::arithmetic::div_mod::lemma_div_multiples_vanish(a.bits as int, FRAC_ONE as int);
        assert(a.bits * FRAC_ONE == FRAC_ONE * a.bits) by (nonlinear_arith);
    } else {
        vstd::arithmetic::div_mod::lemma_div_multiples_vanish(-a.bits as int, FRAC_ONE as int);
        assert(a.bits * FRAC_ONE < 0) by (nonlinear_arith)
            requires
                a.bits < 0,
        ;
        assert(-(a.bits * FRAC_ONE) == FRAC_ONE * (-a.bits as int)) by (nonlinear_arith);
    }
}

/// Dividing a positive scalar by itself gives exactly one.
pub proof fn lemma_div_self(a: Number)
    requires
        a.bits > 0,
    ensures
        a.spec_div(a) == (Number { bits: FRAC_ONE }),
{
    vstd::arithmetic::div_mod::lemma_div_multiples_vanish(FRAC_ONE as int, a.bits as int);
    assert(a.bits * FRAC_ONE > 0) by (nonlinear_arith)
        requires
            a.bits > 0,
    ;
}

/// Wrapping addition of `i128` bit patterns is reduction of the exact sum.
proof fn lemma_wrapping_add_is_wrap(a: i128, b: i128)
    ensures
        vstd::wrapping::i128_specs::wrapping_add(a, b) == wrap_bits(a + b),
{
}

/// Wrapping subtraction of `i128` bit patterns is reduction of the exact
/// difference.
proof fn lemma_wrapping_sub_is_wrap(a: i128, b: i128)
    ensures
        vstd::wrapping::i128_specs::wrapping_sub(a, b) == wrap_bits(a - b),
{
}

/// Relies on the fixed crate's `I64F64::wrapping_mul`: it forms the exact
/// 256-bit product of the bit patterns, shifts it right by the 64 fractional
/// bits (an arithmetic shift, rounding toward negative infinity), and keeps
/// the low 128 bits.
#[verifier::external_body]
fn raw_mul(a: i128, b: i128) -> (r: i128)
    ensures
        r == wrap_bits((a * b) / (FRAC_ONE as int)),
{
    fixed::types::I64F64::from_bits(a).wrapping_mul(fixed::types::I64F64::from_bits(b)).to_bits()
}

/// Relies on the fixed crate's `I64F64::wrapping_div`: it scales the dividend
/// bit pattern up by 2^64 into 256 bits, divides by the divisor bit pattern
/// rounding toward zero, and keeps the low 128 bits. It panics only on a zero
/// divisor, which the precondition rules out.
#[verifier::external_body]
fn raw_div(a: i128, b: i128) -> (r: i128)
    requires
        b != 0,
    ensures
        r == wrap_bits(trunc_div(a * FRAC_ONE as int, b as int)),
{
    fixed::types::I64F64::from_bits(a).wrapping_div(fixed::types::I64F64::from_bits(b)).to_bits()
}

/// Relies on the fixed-sqrt crate's `FixedSqrt::sqrt` for `I64F64`: for a
/// nonnegative operand it takes the integer square root of the bit pattern,
/// rounded down, and shifts it left by half the 64 fractional bits. It panics
/// only on a negative operand, which the precondition rules out.
#[verifier::external_body]
fn raw_sqrt(a: i128) -> (r: i128)
    requires
        a >= 0,
    ensures
        r == (int_sqrt(a as int) * SQRT_ONE) as i128,
{
    fixed_sqrt::FixedSqrt::sqrt(fixed::types::I64F64::from_bits(a)).to_bits()
}

} // verus!
