//! Double-precision numbers, held by their IEEE 754 bit patterns.
//!
//! A pattern has a sign bit, eleven bits of biased exponent and fifty-two bits
//! of fraction. Two readings of a pattern are defined here: its `rank` in the
//! total order of IEEE 754 (every pattern has one, the not-a-number patterns
//! at both ends), and its `scaled` value, the number it stands for counted in
//! units of two to the power -1074.

use vstd::prelude::*;
use vstd::arithmetic::power2::*;

verus! {

/// The pattern with only the sign bit set: negative zero.
pub const SIGN_BIT: u64 = 0x8000_0000_0000_0000;

/// Two to the power 52: the number of fractions under one exponent.
pub const FRACTION_SPAN: u64 = 0x10_0000_0000_0000;

/// The pattern of 1.
pub const ONE_BITS: u64 = 0x3FF0_0000_0000_0000;

/// The pattern of 2.
pub const TWO_BITS: u64 = 0x4000_0000_0000_0000;

/// The pattern of 10.
pub const TEN_BITS: u64 = 0x4024_0000_0000_0000;

/// The pattern of positive infinity.
pub const INFINITY_BITS: u64 = 0x7FF0_0000_0000_0000;

/// The pattern of negative infinity.
pub const NEG_INFINITY_BITS: u64 = 0xFFF0_0000_0000_0000;

/// A double-precision number, given by its bit pattern.
#[derive(Clone, Copy, Debug, PartialEq, Eq, Structural)]
pub struct Double {
    pub bits: u64,
}

/// What a pattern without sign bit is worth in units of two to the power
/// -1074. The pattern holds the biased exponent above the fifty-two bits of
/// the fraction. Under exponent 0 it is worth its fraction alone; otherwise
/// it is worth the fraction with its leading one, doubled once for each step
/// of the exponent above 1.
pub open spec fn weight(m: int) -> int {
    let e = m / (FRACTION_SPAN as int);
    let f = m % (FRACTION_SPAN as int);
    if e <= 0 {
        f
    } else {
        (FRACTION_SPAN + f) * pow2((e - 1) as nat)
    }
}

impl Double {
    /// Whether the sign bit is set.
    pub open spec fn is_negative(self) -> bool {
        self.bits >= SIGN_BIT
    }

    /// The pattern without its sign bit.
    pub open spec fn magnitude_bits(self) -> int {
        if self.bits >= SIGN_BIT {
            self.bits - SIGN_BIT
        } else {
            self.bits as int
        }
    }

    /// Whether the pattern stands for no number.
    pub open spec fn is_nan(self) -> bool {
        self.magnitude_bits() > INFINITY_BITS
    }

    /// Whether the pattern stands for a finite number.
    pub open spec fn is_finite(self) -> bool {
        self.magnitude_bits() < INFINITY_BITS
    }

    /// The size of the number in units of two to the power -1074. An infinity
    /// gets what the rule for finite numbers gives under its own exponent,
    /// which lies beyond every finite number.
    pub open spec fn magnitude(self) -> int {
        weight(self.magnitude_bits())
    }

    /// The number in units of two to the power -1074, with its sign.
    pub open spec fn scaled(self) -> int {
        if self.is_negative() {
            -self.magnitude()
        } else {
            self.magnitude()
        }
    }

    /// Whether the pattern stands for the whole number `n`.
    pub open spec fn is_int(self, n: int) -> bool {
        self.is_finite() && self.scaled() == n * pow2(1074)
    }

    /// The place of the pattern in the total order of IEEE 754: negative
    /// not-a-number patterns first, then the numbers from negative infinity
    /// up to negative zero, then positive zero up to positive infinity, then
    /// the positive not-a-number patterns. No two patterns share a rank.
    pub open spec fn rank(self) -> int {
        if self.bits >= SIGN_BIT {
            -1 - (self.bits - SIGN_BIT)
        } else {
            self.bits as int
        }
    }

    /// Clamping in the total order: the nearest pattern between `min` and `max`.
    pub open spec fn clamp_spec(self, min: Double, max: Double) -> Double {
        if self.rank() <= min.rank() {
            min
        } else if self.rank() >= max.rank() {
            max
        } else {
            self
        }
    }

    /// The number with the given bit pattern.
    pub fn from_bits(bits: u64) -> (r: Double)
        ensures
            r.bits == bits,
    {
        Double { bits }
    }

    /// The bit pattern of the number.
    pub fn to_bits(self) -> (bits: u64)
        ensures
            bits == self.bits,
    {
        self.bits
    }

    /// Positive infinity, in contracts.
    pub open spec fn infinity_spec() -> Double {
        Double { bits: INFINITY_BITS }
    }

    /// Negative infinity, in contracts.
    pub open spec fn neg_infinity_spec() -> Double {
        Double { bits: NEG_INFINITY_BITS }
    }

    /// Positive zero, in contracts.
    pub open spec fn zero_spec() -> Double {
        Double { bits: 0 }
    }

    /// The number 1, in contracts.
    pub open spec fn one_spec() -> Double {
        Double { bits: ONE_BITS }
    }

    /// The number 2, in contracts.
    pub open spec fn two_spec() -> Double {
        Double { bits: TWO_BITS }
    }

    /// The number 10, in contracts.
    pub open spec fn ten_spec() -> Double {
        Double { bits: TEN_BITS }
    }

    /// The number of the same size with the other sign, in contracts.
    pub open spec fn neg_spec(self) -> Double {
        if self.bits >= SIGN_BIT {
            Double { bits: (self.bits - SIGN_BIT) as u64 }
        } else {
            Double { bits: (self.bits + SIGN_BIT) as u64 }
        }
    }

    /// The number 1.
    #[verifier::when_used_as_spec(one_spec)]
    pub fn one() -> (r: Double)
        ensures
            r == Double::one(),
    {
        Double { bits: ONE_BITS }
    }

    /// The number 2.
    #[verifier::when_used_as_spec(two_spec)]
    pub fn two() -> (r: Double)
        ensures
            r == Double::two(),
    {
        Double { bits: TWO_BITS }
    }

    /// The number 10.
    #[verifier::when_used_as_spec(ten_spec)]
    pub fn ten() -> (r: Double)
        ensures
            r == Double::ten(),
    {
        Double { bits: TEN_BITS }
    }

    /// The number of the same size with the other sign.
    #[verifier::when_used_as_spec(neg_spec)]
    pub fn neg(self) -> (r: Double)
        ensures
            r == self.neg(),
    {
        if self.bits >= SIGN_BIT {
            Double { bits: self.bits - SIGN_BIT }
        } else {
            Double { bits: self.bits + SIGN_BIT }
        }
    }

    /// Positive infinity, the last number of the total order.
    #[verifier::when_used_as_spec(infinity_spec)]
    pub fn infinity() -> (r: Double)
        ensures
            r == Double::infinity(),
    {
        Double { bits: INFINITY_BITS }
    }

    /// Negative infinity, the first number of the total order.
    #[verifier::when_used_as_spec(neg_infinity_spec)]
    pub fn neg_infinity() -> (r: Double)
        ensures
            r == Double::neg_infinity(),
    {
        Double { bits: NEG_INFINITY_BITS }
    }

    /// Positive zero, the first number that is not negative.
    #[verifier::when_used_as_spec(zero_spec)]
    pub fn zero() -> (r: Double)
        ensures
            r == Double::zero(),
    {
        Double { bits: 0 }
    }

    /// Whether `self` comes before `other` in the total order, or is `other`.
    pub fn total_le(self, other: Double) -> (b: bool)
        ensures
            b == (self.rank() <= other.rank()),
    {
        if self.bits >= SIGN_BIT {
            other.bits < SIGN_BIT || other.bits <= self.bits
        } else {
            other.bits < SIGN_BIT && self.bits <= other.bits
        }
    }

    /// Brings the number into the range from `min` to `max` of the total
    /// order: a number below the range becomes `min`, one above it `max`, and
    /// one inside it stays as it is.
    pub fn clamp(self, min: Double, max: Double) -> (r: Double)
        requires
            min.rank() <= max.rank(),
        ensures
            r == self.clamp_spec(min, max),
            min.rank() <= r.rank() <= max.rank(),
    {
        if self.total_le(min) {
            min
        } else if max.total_le(self) {
            max
        } else {
            self
        }
    }
}

/// A pattern without sign bit is worth less than every larger one.
pub proof fn lemma_weight_increases(m1: int, m2: int)
    requires
        0 <= m1 < m2,
    ensures
        0 <= weight(m1) < weight(m2),
{
    let s = FRACTION_SPAN as int;
    let e1 = m1 / s;
    let f1 = m1 % s;
    let e2 = m2 / s;
    let f2 = m2 % s;
    assert(m1 == e1 * s + f1 && m2 == e2 * s + f2 && 0 <= f1 < s && 0 <= f2 < s && 0 <= e1 <= e2)
        by (nonlinear_arith)
        requires
            0 <= m1 < m2,
            s == 0x10_0000_0000_0000,
            e1 == m1 / s,
            f1 == m1 % s,
            e2 == m2 / s,
            f2 == m2 % s,
    ;
    if e1 == e2 {
        assert(f1 < f2);
        if e1 > 0 {
            let p = pow2((e1 - 1) as nat) as int;
            lemma_pow2_pos((e1 - 1) as nat);
            assert(0 <= (s + f1) * p < (s + f2) * p) by (nonlinear_arith)
                requires
                    0 <= f1 < f2,
                    s > 0,
                    p > 0,
            ;
        }
    } else {
        let q = pow2((e2 - 1) as nat) as int;
        lemma_pow2_pos((e2 - 1) as nat);
        assert(s * q <= (s + f2) * q) by (nonlinear_arith)
            requires
                0 <= f2,
                s > 0,
                q > 0,
        ;
        if e1 == 0 {
            assert(s * 1 <= s * q) by (nonlinear_arith)
                requires
                    s > 0,
                    q >= 1,
            ;
        } else {
            let p = pow2((e1 - 1) as nat) as int;
            lemma_pow2_pos((e1 - 1) as nat);
            lemma_pow2_unfold(e1 as nat);
            assert(pow2(e1 as nat) == 2 * p);
            if e1 < e2 - 1 {
                lemma_pow2_strictly_increases(e1 as nat, (e2 - 1) as nat);
            }
            assert(2 * p <= q);
            assert(0 <= (s + f1) * p < s * q) by (nonlinear_arith)
                requires
                    0 <= f1 < s,
                    p > 0,
                    2 * p <= q,
            ;
        }
    }
}

/// The total order agrees with the order of the numbers: of two patterns that
/// stand for numbers, the one of lower or equal rank stands for the lower or
/// equal number, and a lower number always has the lower rank. Only the two
/// zeros stand for one number at different ranks.
pub proof fn lemma_rank_orders_numbers(a: Double, b: Double)
    requires
        !a.is_nan(),
        !b.is_nan(),
    ensures
        a.rank() <= b.rank() ==> a.scaled() <= b.scaled(),
        a.scaled() < b.scaled() ==> a.rank() < b.rank(),
        a.scaled() == b.scaled() && a.rank() != b.rank() ==> a.scaled() == 0,
{
    let ma = a.magnitude_bits();
    let mb = b.magnitude_bits();
    if ma < mb {
        lemma_weight_increases(ma, mb);
    } else if mb < ma {
        lemma_weight_increases(mb, ma);
    }
    if ma > 0 {
        lemma_weight_increases(0, ma);
    }
    if mb > 0 {
        lemma_weight_increases(0, mb);
    }
    assert(weight(0) == 0);
}

/// Clamping in the total order is clamping of the numbers: what comes out is
/// always a number within the range; an entry below the range gives the lower
/// end, an entry above it the upper end, and a number strictly inside the
/// range stays as it is.
pub proof fn lemma_clamp_is_nearest(x: Double, min: Double, max: Double)
    requires
        !min.is_nan(),
        !max.is_nan(),
        min.rank() <= max.rank(),
    ensures
        !x.clamp_spec(min, max).is_nan(),
        min.scaled() <= x.clamp_spec(min, max).scaled() <= max.scaled(),
        !x.is_nan() && x.scaled() < min.scaled() ==> x.clamp_spec(min, max) == min,
        !x.is_nan() && x.scaled() > max.scaled() ==> x.clamp_spec(min, max) == max,
        !x.is_nan() && min.scaled() < x.scaled() < max.scaled() ==> x.clamp_spec(min, max) == x,
{
    lemma_rank_orders_numbers(min, max);
    if !x.is_nan() {
        lemma_rank_orders_numbers(x, min);
        lemma_rank_orders_numbers(min, x);
        lemma_rank_orders_numbers(x, max);
        lemma_rank_orders_numbers(max, x);
    }
}

/// Changing the sign of a pattern changes the sign of what it stands for, and
/// nothing else.
pub proof fn lemma_neg(a: Double)
    ensures
        a.neg().is_negative() != a.is_negative(),
        a.neg().magnitude_bits() == a.magnitude_bits(),
        a.neg().scaled() == -a.scaled(),
        a.neg().is_nan() == a.is_nan(),
        a.neg().is_finite() == a.is_finite(),
        a.neg().neg() == a,
        forall|n: int| a.is_int(n) ==> #[trigger] a.neg().is_int(-n),
{
    assert forall|n: int| a.is_int(n) implies #[trigger] a.neg().is_int(-n) by {
        assert((-n) * pow2(1074) == -(n * pow2(1074))) by (nonlinear_arith);
    }
}

/// The named numbers stand for the whole numbers that they are named after.
pub proof fn lemma_named_numbers()
    ensures
        Double::zero().is_int(0),
        Double::one().is_int(1),
        Double::two().is_int(2),
        Double::ten().is_int(10),
        Double::one().neg().is_int(-1),
        Double::ten().neg().is_int(-10),
{
    lemma2_to64_rest();
    let unit = pow2(1074) as int;
    lemma_pow2_adds(52, 1022);
    lemma_pow2_unfold(1023);
    lemma_pow2_unfold(1024);
    lemma_pow2_unfold(1025);
    let p = pow2(1022) as int;
    assert(pow2(1023) == 2 * p);
    assert(pow2(1025) == 8 * p);
    assert(unit == 0x10_0000_0000_0000 * p);
    assert(ONE_BITS as int / (FRACTION_SPAN as int) == 1023);
    assert(ONE_BITS as int % (FRACTION_SPAN as int) == 0);
    assert(TWO_BITS as int / (FRACTION_SPAN as int) == 1024);
    assert(TWO_BITS as int % (FRACTION_SPAN as int) == 0);
    assert(TEN_BITS as int / (FRACTION_SPAN as int) == 1026);
    assert(TEN_BITS as int % (FRACTION_SPAN as int) == 0x4_0000_0000_0000);
    assert(weight(ONE_BITS as int) == 0x10_0000_0000_0000 * p);
    assert(0x10_0000_0000_0000 * (2 * p) == 2 * (0x10_0000_0000_0000 * p)) by (nonlinear_arith);
    assert(weight(TWO_BITS as int) == 2 * unit);
    assert((0x10_0000_0000_0000 + 0x4_0000_0000_0000) * (8 * p) == 10 * (0x10_0000_0000_0000 * p))
        by (nonlinear_arith);
    assert(weight(TEN_BITS as int) == 10 * unit);
    lemma_neg(Double::one());
    lemma_neg(Double::ten());
}

} // verus!
