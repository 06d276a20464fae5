use vstd::prelude::*;

verus! {

// Real-valued request fields (the painter scale and the virtual animation
// clock) are carried through the verified core as the IEEE-754 bit pattern
// of the corresponding 64-bit binary float, stored in a `u64`. The checks
// the pipeline has to make on such a field - is it finite, is it positive,
// does it exceed a configured bound - are all decidable from the bits:
//
//   * the value is finite exactly when the 11 exponent bits are not all
//     ones (all ones encodes an infinity or a NaN);
//   * for finite values, the value is zero exactly when the 63 low bits
//     (the magnitude) are zero, whatever the sign bit says;
//   * for two finite values that are both >= 0, the numeric order agrees
//     with the unsigned order of their magnitude bits.
//
// The unverified rim converts with `f64::to_bits`, which is a lossless
// reinterpretation, so these predicates say exactly what the float
// comparisons in an unverified implementation would have said.

/// Mask of the 11 exponent bits, shifted down.
pub const F64_EXPONENT_MASK: u64 = 0x7ff;

/// Mask of everything but the sign bit: exponent and mantissa.
pub const F64_MAGNITUDE_MASK: u64 = 0x7fff_ffff_ffff_ffff;

/// The exponent field of a float, as an unsigned integer.
pub open spec fn f64_exponent(bits: u64) -> u64 {
    (bits >> 52) & F64_EXPONENT_MASK
}

/// The magnitude bits of a float: its bit pattern with the sign cleared.
pub open spec fn f64_magnitude(bits: u64) -> u64 {
    bits & F64_MAGNITUDE_MASK
}

/// The sign bit of a float.
pub open spec fn f64_is_sign_negative(bits: u64) -> bool {
    bits >> 63 == 1
}

/// The encoded value is neither an infinity nor a NaN.
pub open spec fn f64_is_finite(bits: u64) -> bool {
    f64_exponent(bits) != F64_EXPONENT_MASK
}

/// The encoded value is finite and strictly greater than zero.
pub open spec fn f64_is_positive(bits: u64) -> bool {
    &&& f64_is_finite(bits)
    &&& !f64_is_sign_negative(bits)
    &&& f64_magnitude(bits) != 0
}

/// The encoded value is finite and greater than or equal to zero.
/// A negative zero compares equal to zero, so it counts as non-negative.
pub open spec fn f64_is_nonneg(bits: u64) -> bool {
    &&& f64_is_finite(bits)
    &&& (!f64_is_sign_negative(bits) || f64_magnitude(bits) == 0)
}

/// Numeric `a <= b`, for two encoded values that are both non-negative:
/// on that range the float order is the unsigned order of the magnitudes.
pub open spec fn f64_nonneg_le(a: u64, b: u64) -> bool {
    f64_magnitude(a) <= f64_magnitude(b)
}

pub fn is_finite_bits(bits: u64) -> (r: bool)
    ensures
        r == f64_is_finite(bits),
{
    (bits >> 52) & F64_EXPONENT_MASK != F64_EXPONENT_MASK
}

pub fn is_positive_bits(bits: u64) -> (r: bool)
    ensures
        r == f64_is_positive(bits),
{
    is_finite_bits(bits) && bits >> 63 != 1 && bits & F64_MAGNITUDE_MASK != 0
}

pub fn is_nonneg_bits(bits: u64) -> (r: bool)
    ensures
        r == f64_is_nonneg(bits),
{
    is_finite_bits(bits) && (bits >> 63 != 1 || bits & F64_MAGNITUDE_MASK == 0)
}

pub fn nonneg_le_bits(a: u64, b: u64) -> (r: bool)
    ensures
        r == f64_nonneg_le(a, b),
{
    a & F64_MAGNITUDE_MASK <= b & F64_MAGNITUDE_MASK
}

} // verus!
