//! Binary64 numbers by bit pattern, with the exact operations on them:
//! sign, magnitude, ordering and minimum.

use vstd::arithmetic::mul::{lemma_mul_inequality, lemma_mul_strict_inequality};
use vstd::arithmetic::power2::{
    lemma2_to64_rest, lemma_pow2_adds, lemma_pow2_pos, lemma_pow2_strictly_increases,
    lemma_pow2_unfold, pow2,
};
use vstd::prelude::*;

verus! {

/// The sign bit of a binary64 pattern.
pub const SIGN_BIT: u64 = 0x8000_0000_0000_0000;

/// The pattern of positive infinity; a larger magnitude is not a number.
pub const INFINITY_BITS: u64 = 0x7ff0_0000_0000_0000;

/// Two to the 52nd: the number of fraction patterns under one exponent.
pub const FRACTION_SPAN: u64 = 0x0010_0000_0000_0000;

/// The pattern of 1.0.
pub const ONE_BITS: u64 = 0x3ff0_0000_0000_0000;

/// What a magnitude pattern stands for, times two to the 1074th: an integer
/// for every finite pattern. Patterns without exponent bits are subnormal and
/// count their fraction alone; the others carry the implicit leading bit.
/// The pattern of infinity gets a value beyond every finite one.
pub open spec fn scaled_size(magnitude: int) -> int {
    let exponent = magnitude / (FRACTION_SPAN as int);
    let fraction = magnitude % (FRACTION_SPAN as int);
    if exponent == 0 {
        fraction
    } else {
        (FRACTION_SPAN + fraction) * pow2((exponent - 1) as nat)
    }
}

/// A larger magnitude pattern stands for a larger size.
pub proof fn lemma_scaled_size_increases(low: int, high: int)
    requires
        0 <= low < high,
    ensures
        0 <= scaled_size(low) < scaled_size(high),
{
    let span = FRACTION_SPAN as int;
    let (e1, f1) = (low / span, low % span);
    let (e2, f2) = (high / span, high % span);
    assert(low == e1 * span + f1 && high == e2 * span + f2);
    assert(e1 <= e2);
    if e2 == 0 {
    } else {
        let p2 = pow2((e2 - 1) as nat) as int;
        lemma_pow2_pos((e2 - 1) as nat);
        if e1 == 0 {
            lemma_mul_inequality(1, p2, span + f2);
            assert((span + f2) * p2 == p2 * (span + f2)) by (nonlinear_arith);
        } else {
            let p1 = pow2((e1 - 1) as nat) as int;
            lemma_pow2_pos((e1 - 1) as nat);
            if e1 == e2 {
                lemma_mul_strict_inequality(span + f1, span + f2, p1);
            } else {
                // (span + f1) * p1 < 2 * span * p1 = span * pow2(e1) <= span * p2
                lemma_mul_strict_inequality(span + f1, 2 * span, p1);
                lemma_pow2_unfold(e1 as nat);
                if e1 < e2 - 1 {
                    lemma_pow2_strictly_increases(e1 as nat, (e2 - 1) as nat);
                }
                let q = pow2(e1 as nat) as int;
                assert(2 * span * p1 == span * q) by (nonlinear_arith)
                    requires
                        q == 2 * p1,
                ;
                lemma_mul_inequality(q, p2, span);
                lemma_mul_inequality(span, span + f2, p2);
                assert(span * q == q * span) by (nonlinear_arith);
                assert(span * p2 == p2 * span) by (nonlinear_arith);
            }
        }
    }
}

/// A binary64 number, held as its bit pattern.
///
/// Two scalars are `==` when their patterns agree. That is finer than the
/// order of numbers, under which the two zeros stand level and a pattern that
/// is not a number stands nowhere.
#[derive(Clone, Copy, Debug, PartialEq, Eq, Structural)]
pub struct Scalar {
    pub bits: u64,
}

impl Scalar {
    /// The sign bit is set. Holds of negative zero too.
    pub open spec fn is_negative(self) -> bool {
        self.bits >= SIGN_BIT
    }

    /// The pattern without its sign bit.
    pub open spec fn magnitude(self) -> int {
        if self.bits >= SIGN_BIT {
            self.bits - SIGN_BIT
        } else {
            self.bits as int
        }
    }

    /// The pattern is not a number.
    pub open spec fn spec_is_nan(self) -> bool {
        self.magnitude() > INFINITY_BITS
    }

    /// The number times two to the 1074th. Both zeros give 0; an infinity
    /// gives a value beyond every finite scalar of its sign.
    pub open spec fn scaled(self) -> int {
        if self.is_negative() {
            -scaled_size(self.magnitude())
        } else {
            scaled_size(self.magnitude())
        }
    }

    /// The place of the pattern in the order of numbers: its magnitude, counted
    /// downwards from zero under a set sign bit.
    pub open spec fn rank(self) -> int {
        if self.is_negative() {
            -self.magnitude()
        } else {
            self.magnitude()
        }
    }

    /// Both are numbers and `self` is the greater.
    pub open spec fn spec_gt(self, other: Scalar) -> bool {
        !self.spec_is_nan() && !other.spec_is_nan() && self.scaled() > other.scaled()
    }

    /// Both are numbers and `self` is the lesser.
    pub open spec fn spec_lt(self, other: Scalar) -> bool {
        other.spec_gt(self)
    }

    /// The lesser of two numbers, `self` where neither is less. Where one of
    /// the two is not a number, the other.
    pub open spec fn spec_min(self, other: Scalar) -> Scalar {
        if self.spec_is_nan() {
            other
        } else if other.spec_lt(self) {
            other
        } else {
            self
        }
    }

    /// The same magnitude with the sign bit cleared.
    pub open spec fn spec_abs(self) -> Scalar {
        Scalar { bits: self.magnitude() as u64 }
    }

    /// The pattern of positive zero.
    pub open spec fn spec_zero() -> Scalar {
        Scalar { bits: 0 }
    }

    /// The pattern of 1.
    pub open spec fn spec_one() -> Scalar {
        Scalar { bits: ONE_BITS }
    }

    /// Positive zero.
    #[verifier::when_used_as_spec(spec_zero)]
    pub fn zero() -> (r: Scalar)
        ensures
            r == Scalar::spec_zero(),
            !r.spec_is_nan(),
            r.scaled() == 0,
    {
        Scalar { bits: 0 }
    }

    /// The number 1.
    #[verifier::when_used_as_spec(spec_one)]
    pub fn one() -> (r: Scalar)
        ensures
            r == Scalar::spec_one(),
            !r.spec_is_nan(),
            r.scaled() == pow2(1074),
    {
        proof {
            lemma2_to64_rest();
            lemma_pow2_adds(52, 1022);
        }
        Scalar { bits: ONE_BITS }
    }

    /// Whether the pattern is not a number.
    #[verifier::when_used_as_spec(spec_is_nan)]
    pub fn is_nan(self) -> (r: bool)
        ensures
            r == self.spec_is_nan(),
    {
        self.abs().bits > INFINITY_BITS
    }

    /// Clears the sign bit.
    #[verifier::when_used_as_spec(spec_abs)]
    pub fn abs(self) -> (r: Scalar)
        ensures
            r == self.spec_abs(),
            r.spec_is_nan() == self.spec_is_nan(),
            !r.is_negative(),
            r.scaled() == if self.is_negative() { -self.scaled() } else { self.scaled() },
    {
        if self.bits >= SIGN_BIT {
            Scalar { bits: self.bits - SIGN_BIT }
        } else {
            self
        }
    }

    /// Whether `self` is greater than `other`, as numbers: false as soon as
    /// one of them is not a number, and false between the two zeros.
    #[verifier::when_used_as_spec(spec_gt)]
    pub fn gt(self, other: Scalar) -> (r: bool)
        ensures
            r == self.spec_gt(other),
    {
        if self.is_nan() || other.is_nan() {
            return false;
        }
        let a: u64 = self.abs().bits;
        let b: u64 = other.abs().bits;
        proof {
            lemma_rank_orders(other, self);
        }
        if self.bits >= SIGN_BIT {
            other.bits >= SIGN_BIT && a < b
        } else if other.bits >= SIGN_BIT {
            a > 0 || b > 0
        } else {
            a > b
        }
    }

    /// Whether `self` is less than `other`, as numbers.
    #[verifier::when_used_as_spec(spec_lt)]
    pub fn lt(self, other: Scalar) -> (r: bool)
        ensures
            r == self.spec_lt(other),
    {
        other.gt(self)
    }

    /// The lesser of the two. A pattern that is not a number yields to the
    /// other argument; where neither is less, `self` is returned.
    #[verifier::when_used_as_spec(spec_min)]
    pub fn min(self, other: Scalar) -> (r: Scalar)
        ensures
            r == self.spec_min(other),
    {
        if self.is_nan() {
            other
        } else if other.lt(self) {
            other
        } else {
            self
        }
    }
}

/// Patterns are ranked as the numbers they stand for are ordered, so that two
/// numbers can be compared by their patterns alone.
pub proof fn lemma_rank_orders(a: Scalar, b: Scalar)
    ensures
        (a.rank() < b.rank()) == (a.scaled() < b.scaled()),
        (a.rank() == b.rank()) == (a.scaled() == b.scaled()),
{
    let (m, n) = (a.magnitude(), b.magnitude());
    if m < n {
        lemma_scaled_size_increases(m, n);
    } else if n < m {
        lemma_scaled_size_increases(n, m);
    }
    if 0 < m {
        lemma_scaled_size_increases(0, m);
    }
    if 0 < n {
        lemma_scaled_size_increases(0, n);
    }
}

} // verus!
