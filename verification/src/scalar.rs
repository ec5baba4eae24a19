//! IEEE-754 single-precision scalars carried as bit patterns.
//!
//! A `Scalar` holds the 32 bits of a single-precision value.  The four
//! rounding arithmetic operations, the square root, the ordering test and
//! the integer conversion are performed by the `softfp` soft-float library
//! (round to nearest, ties to even) behind trusted wrappers; their results
//! are named by uninterpreted spec functions, so every contract above them
//! is an exact composition of those names.  Sign flips and classification
//! tests are pure bit manipulation and are verified directly.

use vstd::prelude::*;

verus! {

/// A single-precision value, held as its bit pattern.
#[derive(Clone, Copy, PartialEq, Eq, Structural, Debug)]
pub struct Scalar {
    pub bits: u32,
}

/// Bits of 0.0
pub const ZERO_BITS: u32 = 0x0000_0000;
/// Bits of 1.0
pub const ONE_BITS: u32 = 0x3F80_0000;
/// Bits of -1.0
pub const NEG_ONE_BITS: u32 = 0xBF80_0000;
/// Bits of 2.0
pub const TWO_BITS: u32 = 0x4000_0000;
/// Bits of 0.5
pub const HALF_BITS: u32 = 0x3F00_0000;
/// Bits of the machine epsilon, 2^-23
pub const EPSILON_BITS: u32 = 0x3400_0000;
/// Bits of positive infinity
pub const INFINITY_BITS: u32 = 0x7F80_0000;
/// Sign bit mask
pub const SIGN_MASK: u32 = 0x8000_0000;
/// Exponent bits mask
pub const EXPONENT_MASK: u32 = 0x7F80_0000;
/// Significand bits mask
pub const SIGNIFICAND_MASK: u32 = 0x007F_FFFF;

impl Scalar {
    /// The value with the given bit pattern.
    pub fn new(bits: u32) -> (r: Scalar)
        ensures
            r.bits == bits,
    {
        Scalar { bits }
    }

    /// 0.0
    pub fn zero() -> (r: Scalar)
        ensures
            r.bits == ZERO_BITS,
    {
        Scalar { bits: ZERO_BITS }
    }

    /// 1.0
    pub fn one() -> (r: Scalar)
        ensures
            r.bits == ONE_BITS,
    {
        Scalar { bits: ONE_BITS }
    }

    /// The rounded sum of the two values.
    pub fn add(self, b: Scalar) -> (r: Scalar)
        ensures
            r == s_add(self, b),
    {
        sf_add(self, b)
    }

    /// The rounded difference of the two values.
    pub fn sub(self, b: Scalar) -> (r: Scalar)
        ensures
            r == s_sub(self, b),
    {
        sf_sub(self, b)
    }

    /// The rounded product of the two values.
    pub fn mul(self, b: Scalar) -> (r: Scalar)
        ensures
            r == s_mul(self, b),
    {
        sf_mul(self, b)
    }

    /// The rounded quotient of the two values.
    pub fn div(self, b: Scalar) -> (r: Scalar)
        ensures
            r == s_div(self, b),
    {
        sf_div(self, b)
    }

    /// The rounded square root of the value.
    pub fn sqrt(self) -> (r: Scalar)
        ensures
            r == s_sqrt(self),
    {
        sf_sqrt(self)
    }

    /// Whether the value compares strictly below the other.
    pub fn lt(self, b: Scalar) -> (r: bool)
        ensures
            r == s_lt(self, b),
    {
        sf_lt(self, b)
    }

    /// The value nearest to the integer.
    pub fn from_u32(a: u32) -> (r: Scalar)
        ensures
            r.bits == from_u32_bits(a),
    {
        sf_from_u32(a)
    }
}

/// The sum of the two values under round-to-nearest-even.
pub uninterp spec fn add_bits(a: u32, b: u32) -> u32;

/// The difference of the two values under round-to-nearest-even.
pub uninterp spec fn sub_bits(a: u32, b: u32) -> u32;

/// The product of the two values under round-to-nearest-even.
pub uninterp spec fn mul_bits(a: u32, b: u32) -> u32;

/// The quotient of the two values under round-to-nearest-even.
pub uninterp spec fn div_bits(a: u32, b: u32) -> u32;

/// The square root of the value under round-to-nearest-even.
pub uninterp spec fn sqrt_bits(a: u32) -> u32;

/// Whether the first value compares strictly below the second
/// (false when either is a NaN).
pub uninterp spec fn lt_bits(a: u32, b: u32) -> bool;

/// The nearest single-precision value of the integer.
pub uninterp spec fn from_u32_bits(a: u32) -> u32;

/// The rounding mode of `softfp`.
#[verifier::external_type_specification]
#[verifier::external_body]
pub struct ExRoundingMode(softfp::RoundingMode);

/// The exception flags of `softfp`.
#[verifier::external_type_specification]
#[verifier::external_body]
pub struct ExExceptionFlags(softfp::ExceptionFlags);

/// Relies on `softfp`'s `RoundingMode::TiesToEven`: the callback handed to
/// `register_get_rounding_mode`, fixing round to nearest, ties to even.
#[verifier::external_body]
fn ties_to_even() -> softfp::RoundingMode {
    softfp::RoundingMode::TiesToEven
}

/// The callback handed to `softfp`'s `register_set_exception_flags`;
/// the flags are not read.
#[verifier::external_body]
fn drop_exception_flags(_flags: softfp::ExceptionFlags) {
}

/// Relies on `softfp`'s `Fp::add` (IEEE-754 addition, ties to even).
#[verifier::external_body]
pub(crate) fn sf_add(a: Scalar, b: Scalar) -> (r: Scalar)
    ensures
        r.bits == add_bits(a.bits, b.bits),
{
    softfp::register_get_rounding_mode(ties_to_even);
    softfp::register_set_exception_flags(drop_exception_flags);
    Scalar { bits: (softfp::F32::new(a.bits) + softfp::F32::new(b.bits)).0 }
}

/// Relies on `softfp`'s `Fp::sub` (IEEE-754 subtraction, ties to even).
#[verifier::external_body]
pub(crate) fn sf_sub(a: Scalar, b: Scalar) -> (r: Scalar)
    ensures
        r.bits == sub_bits(a.bits, b.bits),
{
    softfp::register_get_rounding_mode(ties_to_even);
    softfp::register_set_exception_flags(drop_exception_flags);
    Scalar { bits: (softfp::F32::new(a.bits) - softfp::F32::new(b.bits)).0 }
}

/// Relies on `softfp`'s `Fp::mul` (IEEE-754 multiplication, ties to even).
#[verifier::external_body]
pub(crate) fn sf_mul(a: Scalar, b: Scalar) -> (r: Scalar)
    ensures
        r.bits == mul_bits(a.bits, b.bits),
{
    softfp::register_get_rounding_mode(ties_to_even);
    softfp::register_set_exception_flags(drop_exception_flags);
    Scalar { bits: (softfp::F32::new(a.bits) * softfp::F32::new(b.bits)).0 }
}

/// Relies on `softfp`'s `Fp::div` (IEEE-754 division, ties to even).
#[verifier::external_body]
pub(crate) fn sf_div(a: Scalar, b: Scalar) -> (r: Scalar)
    ensures
        r.bits == div_bits(a.bits, b.bits),
{
    softfp::register_get_rounding_mode(ties_to_even);
    softfp::register_set_exception_flags(drop_exception_flags);
    Scalar { bits: (softfp::F32::new(a.bits) / softfp::F32::new(b.bits)).0 }
}

/// Relies on `softfp`'s `Fp::square_root` (IEEE-754 square root, ties to even).
#[verifier::external_body]
pub(crate) fn sf_sqrt(a: Scalar) -> (r: Scalar)
    ensures
        r.bits == sqrt_bits(a.bits),
{
    softfp::register_get_rounding_mode(ties_to_even);
    softfp::register_set_exception_flags(drop_exception_flags);
    Scalar { bits: softfp::F32::new(a.bits).square_root().0 }
}

/// Relies on `softfp`'s `Fp::compare_quiet` (IEEE-754 ordering;
/// a NaN compares below nothing).
#[verifier::external_body]
pub(crate) fn sf_lt(a: Scalar, b: Scalar) -> (r: bool)
    ensures
        r == lt_bits(a.bits, b.bits),
{
    softfp::register_get_rounding_mode(ties_to_even);
    softfp::register_set_exception_flags(drop_exception_flags);
    softfp::F32::compare_quiet(softfp::F32::new(a.bits), softfp::F32::new(b.bits))
        == Some(core::cmp::Ordering::Less)
}

/// Relies on `softfp`'s `Fp::convert_from_uint` (integer to single precision,
/// ties to even).
#[verifier::external_body]
pub(crate) fn sf_from_u32(a: u32) -> (r: Scalar)
    ensures
        r.bits == from_u32_bits(a),
{
    softfp::register_get_rounding_mode(ties_to_even);
    softfp::register_set_exception_flags(drop_exception_flags);
    Scalar { bits: softfp::F32::convert_from_uint::<u32>(a).0 }
}

/// The scalar with the given bit pattern.
pub open spec fn sc(bits: u32) -> Scalar {
    Scalar { bits }
}

/// The sum of two scalars.
pub open spec fn s_add(a: Scalar, b: Scalar) -> Scalar {
    sc(add_bits(a.bits, b.bits))
}

/// The difference of two scalars.
pub open spec fn s_sub(a: Scalar, b: Scalar) -> Scalar {
    sc(sub_bits(a.bits, b.bits))
}

/// The product of two scalars.
pub open spec fn s_mul(a: Scalar, b: Scalar) -> Scalar {
    sc(mul_bits(a.bits, b.bits))
}

/// The quotient of two scalars.
pub open spec fn s_div(a: Scalar, b: Scalar) -> Scalar {
    sc(div_bits(a.bits, b.bits))
}

/// The square root of a scalar.
pub open spec fn s_sqrt(a: Scalar) -> Scalar {
    sc(sqrt_bits(a.bits))
}

/// The negated scalar.
pub open spec fn s_neg(a: Scalar) -> Scalar {
    sc(neg_bits(a.bits))
}

/// Whether the first scalar compares strictly below the second.
pub open spec fn s_lt(a: Scalar, b: Scalar) -> bool {
    lt_bits(a.bits, b.bits)
}

/// The negated value: IEEE-754 negation flips the sign bit.
pub open spec fn neg_bits(a: u32) -> u32 {
    a ^ SIGN_MASK
}

/// Whether the bit pattern is a zero (of either sign).
pub open spec fn is_zero_bits(a: u32) -> bool {
    a == ZERO_BITS || a == SIGN_MASK
}

/// Whether the bit pattern is a NaN.
pub open spec fn is_nan_bits(a: u32) -> bool {
    (a & EXPONENT_MASK) == EXPONENT_MASK && (a & SIGNIFICAND_MASK) != 0
}

/// IEEE-754 equality: equal bit patterns that are not NaN,
/// or two zeros of either sign.
pub open spec fn eq_bits(a: u32, b: u32) -> bool {
    (a == b && !is_nan_bits(a)) || (is_zero_bits(a) && is_zero_bits(b))
}

/// IEEE-754 `>=`: equal or strictly above (false when either is a NaN).
pub open spec fn ge_bits(a: u32, b: u32) -> bool {
    eq_bits(a, b) || lt_bits(b, a)
}

/// The negated value.
pub fn sf_neg(a: Scalar) -> (r: Scalar)
    ensures
        r.bits == neg_bits(a.bits),
{
    Scalar { bits: a.bits ^ SIGN_MASK }
}

/// Whether the value is a zero (of either sign).
pub fn sf_is_zero(a: Scalar) -> (r: bool)
    ensures
        r == is_zero_bits(a.bits),
{
    a.bits == ZERO_BITS || a.bits == SIGN_MASK
}

/// Whether the value is a NaN.
pub fn sf_is_nan(a: Scalar) -> (r: bool)
    ensures
        r == is_nan_bits(a.bits),
{
    (a.bits & EXPONENT_MASK) == EXPONENT_MASK && (a.bits & SIGNIFICAND_MASK) != 0
}

/// IEEE-754 equality of the two values.
pub fn sf_eq(a: Scalar, b: Scalar) -> (r: bool)
    ensures
        r == eq_bits(a.bits, b.bits),
{
    (a.bits == b.bits && !sf_is_nan(a)) || (sf_is_zero(a) && sf_is_zero(b))
}

/// IEEE-754 `>=` of the two values.
pub fn sf_ge(a: Scalar, b: Scalar) -> (r: bool)
    ensures
        r == ge_bits(a.bits, b.bits),
{
    sf_eq(a, b) || sf_lt(b, a)
}

} // verus!
