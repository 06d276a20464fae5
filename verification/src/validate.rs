use vstd::prelude::*;
use vstd::string::*;

use crate::config::AppLimits;
use crate::errors::{ApiError, ApiErrorV};
use crate::fbits::{
    f64_is_nonneg, f64_is_positive, f64_nonneg_le, is_nonneg_bits, is_positive_bits,
    nonneg_le_bits,
};
use crate::numtext::{dec_str, u32_to_string};
use crate::request::RenderRequest;

verus! {

// Request validation. Each check reads one request field against one
// configured limit; the checks run in a fixed order (width, height,
// scale, animation time), so the first violated bound determines the
// message. The real-valued checks are phrased over the fields' IEEE-754
// bit patterns; under a well-formed `AppLimits` they say exactly what
// the float comparisons `0 < scale <= max` and
// `0 <= animation_time <= max` (each conjunct false for NaN) say.

/// `1 <= w <= max_dimension`.
pub open spec fn width_ok(w: u32, limits: AppLimits) -> bool {
    1 <= w <= limits.max_dimension
}

/// The scale is finite, strictly positive and at most the bound.
pub open spec fn scale_ok(bits: u64, limits: AppLimits) -> bool {
    f64_is_positive(bits) && f64_nonneg_le(bits, limits.max_scale_bits)
}

/// The animation time is finite, non-negative and at most the bound.
pub open spec fn animation_ok(bits: u64, limits: AppLimits) -> bool {
    f64_is_nonneg(bits) && f64_nonneg_le(bits, limits.max_animation_time_bits)
}

pub open spec fn width_message(max_dimension: nat) -> Seq<char> {
    "width must be between 1 and "@ + dec_str(max_dimension)
}

pub open spec fn height_message(max_dimension: nat) -> Seq<char> {
    "height must be between 1 and "@ + dec_str(max_dimension)
}

pub open spec fn scale_message(bound_text: Seq<char>) -> Seq<char> {
    "scale must be within (0, "@ + bound_text + "]"@
}

pub open spec fn animation_message(bound_text: Seq<char>) -> Seq<char> {
    "animation_time must be between 0 and "@ + bound_text + " seconds"@
}

/// The outcome of validation: `None` when every field is in range, else
/// the message of the first violated bound.
pub open spec fn validation_failure(req: RenderRequest, limits: AppLimits) -> Option<Seq<char>> {
    if !width_ok(req.width, limits) {
        Option::Some(width_message(limits.max_dimension as nat))
    } else if !width_ok(req.height, limits) {
        Option::Some(height_message(limits.max_dimension as nat))
    } else if !scale_ok(req.scale_bits, limits) {
        Option::Some(scale_message(limits.max_scale_text@))
    } else if !animation_ok(req.animation_time_bits, limits) {
        Option::Some(animation_message(limits.max_animation_time_text@))
    } else {
        Option::None
    }
}

/// Check one request against the configured limits. Pure: no side
/// effects, deterministic, fixed check order.
pub fn validate_request(req: &RenderRequest, limits: &AppLimits) -> (r: Result<(), ApiError>)
    ensures
        r matches Ok(()) <==> validation_failure(*req, *limits) is None,
        r matches Err(e) ==> validation_failure(*req, *limits) matches Some(m) && e@
            == ApiErrorV::Validation(m),
{
    if req.width == 0 || req.width > limits.max_dimension {
        let msg = String::from_str("width must be between 1 and ").concat(
            u32_to_string(limits.max_dimension).as_str(),
        );
        return Err(ApiError::validation(msg));
    }
    if req.height == 0 || req.height > limits.max_dimension {
        let msg = String::from_str("height must be between 1 and ").concat(
            u32_to_string(limits.max_dimension).as_str(),
        );
        return Err(ApiError::validation(msg));
    }
    if !(is_positive_bits(req.scale_bits) && nonneg_le_bits(
        req.scale_bits,
        limits.max_scale_bits,
    )) {
        let msg = String::from_str("scale must be within (0, ").concat(
            limits.max_scale_text.as_str(),
        ).concat("]");
        return Err(ApiError::validation(msg));
    }
    if !(is_nonneg_bits(req.animation_time_bits) && nonneg_le_bits(
        req.animation_time_bits,
        limits.max_animation_time_bits,
    )) {
        let msg = String::from_str("animation_time must be between 0 and ").concat(
            limits.max_animation_time_text.as_str(),
        ).concat(" seconds");
        return Err(ApiError::validation(msg));
    }
    Ok(())
}

} // verus!
