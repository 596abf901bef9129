//! A tokens-per-second rate in the form in which agents report it.
use vstd::prelude::*;

verus! {

/// The weight of the sign bit of a rate.
pub const SIGN_WEIGHT: u64 = 0x8000_0000_0000_0000;

/// The pattern of infinity; every greater magnitude is "not a number".
pub const INFINITY_PATTERN: u64 = 0x7ff0_0000_0000_0000;

/// A tokens-per-second rate, held as the bit pattern of an IEEE 754 double.
///
/// The library carries rates from agents to whoever displays them, and only
/// ever needs to know whether two rates differ and whether a rate is positive.
/// Arithmetic on rates is up to its callers.
#[derive(Clone, Copy, Debug, PartialEq, Eq, Structural)]
pub struct TokensPerSecond {
    pub bits: u64,
}

impl TokensPerSecond {
    /// The pattern without its sign bit.
    pub open spec fn magnitude_of(self) -> int {
        if self.bits >= SIGN_WEIGHT {
            self.bits - SIGN_WEIGHT
        } else {
            self.bits as int
        }
    }

    /// Whether the pattern is that of "not a number".
    pub open spec fn is_nan(self) -> bool {
        self.magnitude_of() > INFINITY_PATTERN
    }

    /// Equality of doubles: both are numbers, and they are the same pattern or both a zero.
    pub open spec fn equals(self, other: TokensPerSecond) -> bool {
        &&& !self.is_nan()
        &&& !other.is_nan()
        &&& self.bits == other.bits || (self.magnitude_of() == 0 && other.magnitude_of() == 0)
    }

    /// Whether the rate is greater than zero.
    pub open spec fn positive(self) -> bool {
        &&& !self.is_nan()
        &&& self.bits < SIGN_WEIGHT
        &&& self.bits != 0
    }

    /// The rate of an agent that generates nothing.
    pub fn zero() -> (rate: TokensPerSecond)
        ensures
            rate.bits == 0,
    {
        TokensPerSecond { bits: 0 }
    }

    fn magnitude(&self) -> (magnitude: u64)
        ensures
            magnitude == self.magnitude_of(),
    {
        if self.bits >= SIGN_WEIGHT {
            self.bits - SIGN_WEIGHT
        } else {
            self.bits
        }
    }

    /// Whether the two rates differ, as doubles do: "not a number" differs from
    /// everything, itself as well, and the two zeros do not differ.
    pub fn differs_from(&self, other: &TokensPerSecond) -> (differs: bool)
        ensures
            differs == !self.equals(*other),
    {
        let left: u64 = self.magnitude();
        let right: u64 = other.magnitude();
        if left > INFINITY_PATTERN || right > INFINITY_PATTERN {
            return true;
        }
        self.bits != other.bits && !(left == 0 && right == 0)
    }

    /// Whether the rate is greater than zero.
    pub fn is_positive(&self) -> (positive: bool)
        ensures
            positive == self.positive(),
    {
        self.bits != 0 && self.bits <= INFINITY_PATTERN
    }
}

impl Default for TokensPerSecond {
    fn default() -> (rate: Self)
        ensures
            rate.bits == 0,
    {
        TokensPerSecond { bits: 0 }
    }
}

/// Two rates that are numbers differ exactly if their patterns do, but for the two
/// zeros; a rate differs from itself exactly if all the bits of its exponent are set
/// and some bit of its fraction is, which is how "not a number" is written.
pub proof fn rates_differ_as_doubles_do(left: TokensPerSecond, right: TokensPerSecond)
    ensures
        left.equals(right) <==> right.equals(left),
        left.equals(left) <==> !((left.bits >> 52) & 0x7ff == 0x7ff && left.bits
            & 0xf_ffff_ffff_ffff != 0),
        left.equals(right) ==> left.equals(left) && right.equals(right),
        left.equals(left) && right.equals(right) ==> (left.equals(right) <==> left.bits
            == right.bits || (left.bits | right.bits) & 0x7fff_ffff_ffff_ffff == 0),
{
    let a = left.bits;
    let b = right.bits;
    assert(((a >> 52) & 0x7ff == 0x7ff && a & 0xf_ffff_ffff_ffff != 0) == ((a
        & 0x7fff_ffff_ffff_ffff) > 0x7ff0_0000_0000_0000)) by (bit_vector);
    assert(a >= 0x8000_0000_0000_0000u64 ==> a & 0x7fff_ffff_ffff_ffff == a
        - 0x8000_0000_0000_0000) by (bit_vector);
    assert(a < 0x8000_0000_0000_0000u64 ==> a & 0x7fff_ffff_ffff_ffff == a) by (bit_vector);
    assert(b >= 0x8000_0000_0000_0000u64 ==> b & 0x7fff_ffff_ffff_ffff == b
        - 0x8000_0000_0000_0000) by (bit_vector);
    assert(b < 0x8000_0000_0000_0000u64 ==> b & 0x7fff_ffff_ffff_ffff == b) by (bit_vector);
    assert(((a | b) & 0x7fff_ffff_ffff_ffff == 0) == (a & 0x7fff_ffff_ffff_ffff == 0 && b
        & 0x7fff_ffff_ffff_ffff == 0)) by (bit_vector);
}

/// A rate is positive exactly if it is a number, is not a zero and has no sign.
pub proof fn positive_rates_have_no_sign(rate: TokensPerSecond)
    ensures
        rate.positive() <==> rate.equals(rate) && !rate.equals(TokensPerSecond { bits: 0 })
            && rate.bits >> 63 == 0,
{
    let a = rate.bits;
    assert((a >> 63 == 0) == (a < 0x8000_0000_0000_0000u64)) by (bit_vector);
}

/// Rates are told to differ exactly if they do as doubles, in either order; a rate that
/// differs from itself is not positive, and neither is that of an agent that generates
/// nothing.
pub proof fn differing_rates_are_told(
    left: &TokensPerSecond,
    right: &TokensPerSecond,
    differs: bool,
    differs_back: bool,
    differs_from_itself: bool,
    positive: bool,
    zero: TokensPerSecond,
    default_rate: TokensPerSecond,
)
    requires
        call_ensures(TokensPerSecond::differs_from, (left, right), differs),
        call_ensures(TokensPerSecond::differs_from, (right, left), differs_back),
        call_ensures(TokensPerSecond::differs_from, (left, left), differs_from_itself),
        call_ensures(TokensPerSecond::is_positive, (left,), positive),
        call_ensures(TokensPerSecond::zero, (), zero),
        call_ensures(TokensPerSecond::default, (), default_rate),
    ensures
        differs == differs_back,
        differs_from_itself ==> differs && !positive,
        differs_from_itself <==> (left.bits >> 52) & 0x7ff == 0x7ff && left.bits
            & 0xf_ffff_ffff_ffff != 0,
        !differs_from_itself && left.bits != right.bits ==> differs || (left.bits | right.bits)
            & 0x7fff_ffff_ffff_ffff == 0,
        positive <==> !differs_from_itself && left.bits != 0 && left.bits >> 63 == 0,
        zero.bits == 0,
        default_rate == zero,
{
    rates_differ_as_doubles_do(*left, *right);
    positive_rates_have_no_sign(*left);
    let a = left.bits;
    assert(a >> 63 == 0 && a & 0x7fff_ffff_ffff_ffff == 0 ==> a == 0) by (bit_vector);
    assert(a < 0x8000_0000_0000_0000u64 ==> a & 0x7fff_ffff_ffff_ffff == a) by (bit_vector);
    assert((a >> 63 == 0) == (a < 0x8000_0000_0000_0000u64)) by (bit_vector);
}

} // verus!
