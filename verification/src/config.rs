use vstd::prelude::*;
use vstd::string::*;

use crate::fbits::{f64_is_nonneg, f64_is_positive};

verus! {

/// Largest output width or height, in pixels, the default limits allow.
pub const MAX_DIMENSION: u32 = 4096;

/// IEEE-754 bit pattern of the largest painter scale the default
/// limits allow (the float 8.0).
pub const MAX_SCALE_BITS: u64 = 0x4020_0000_0000_0000;

/// IEEE-754 bit pattern of the largest virtual animation time, in
/// seconds, the default limits allow (the float 60.0).
pub const MAX_ANIMATION_TIME_BITS: u64 = 0x404e_0000_0000_0000;

/// IEEE-754 bit pattern of the default painter scale (the float 1.0).
pub const DEFAULT_SCALE_BITS: u64 = 0x3ff0_0000_0000_0000;

/// IEEE-754 bit pattern of the default virtual animation time (the
/// float 5.0).
pub const DEFAULT_ANIMATION_TIME_BITS: u64 = 0x4014_0000_0000_0000;

/// Default cap on an incoming request body, in bytes (1 MiB).
pub const DEFAULT_MAX_BODY_SIZE: usize = 0x0010_0000;

/// The state every request handler shares: the directory font names
/// are resolved against, if the server allows fonts at all.
#[derive(Debug, Clone)]
pub struct AppState {
    pub fonts_dir: Option<String>,
}

/// The numeric limits a request is validated against. The two real
/// bounds are carried as IEEE-754 bit patterns, each beside the text
/// that names it in a validation message.
#[derive(Debug, Clone)]
pub struct AppLimits {
    pub max_dimension: u32,
    pub max_scale_bits: u64,
    /// The human-readable form of the scale bound, used in messages.
    pub max_scale_text: String,
    pub max_animation_time_bits: u64,
    /// The human-readable form of the animation-time bound.
    pub max_animation_time_text: String,
}

impl AppLimits {
    /// Sensible limits: at least one pixel is allowed, the scale bound
    /// is a positive finite real and the animation-time bound a
    /// non-negative finite real.
    pub open spec fn wf(&self) -> bool {
        &&& self.max_dimension >= 1
        &&& f64_is_positive(self.max_scale_bits)
        &&& f64_is_nonneg(self.max_animation_time_bits)
    }
}

impl Default for AppLimits {
    fn default() -> (r: Self)
        ensures
            r.max_dimension == MAX_DIMENSION,
            r.max_scale_bits == MAX_SCALE_BITS,
            r.max_scale_text@ == "8"@,
            r.max_animation_time_bits == MAX_ANIMATION_TIME_BITS,
            r.max_animation_time_text@ == "60"@,
            r.wf(),
    {
        proof {
            lemma_default_limits_wf();
        }
        AppLimits {
            max_dimension: MAX_DIMENSION,
            max_scale_bits: MAX_SCALE_BITS,
            max_scale_text: String::from_str("8"),
            max_animation_time_bits: MAX_ANIMATION_TIME_BITS,
            max_animation_time_text: String::from_str("60"),
        }
    }
}

/// The default limit bit patterns encode what they claim to.
pub proof fn lemma_default_limits_wf()
    ensures
        f64_is_positive(MAX_SCALE_BITS),
        f64_is_nonneg(MAX_ANIMATION_TIME_BITS),
        f64_is_positive(DEFAULT_SCALE_BITS),
        f64_is_nonneg(DEFAULT_ANIMATION_TIME_BITS),
{
    assert((0x4020_0000_0000_0000u64 >> 52) & 0x7ff != 0x7ff) by (bit_vector);
    assert(0x4020_0000_0000_0000u64 >> 63 != 1) by (bit_vector);
    assert(0x4020_0000_0000_0000u64 & 0x7fff_ffff_ffff_ffff != 0) by (bit_vector);
    assert((0x404e_0000_0000_0000u64 >> 52) & 0x7ff != 0x7ff) by (bit_vector);
    assert(0x404e_0000_0000_0000u64 >> 63 != 1) by (bit_vector);
    assert((0x3ff0_0000_0000_0000u64 >> 52) & 0x7ff != 0x7ff) by (bit_vector);
    assert(0x3ff0_0000_0000_0000u64 >> 63 != 1) by (bit_vector);
    assert(0x3ff0_0000_0000_0000u64 & 0x7fff_ffff_ffff_ffff != 0) by (bit_vector);
    assert((0x4014_0000_0000_0000u64 >> 52) & 0x7ff != 0x7ff) by (bit_vector);
    assert(0x4014_0000_0000_0000u64 >> 63 != 1) by (bit_vector);
}

/// Everything the service is configured with at startup.
#[derive(Debug, Clone)]
pub struct AppConfig {
    pub state: AppState,
    pub limits: AppLimits,
    pub max_body_size: usize,
    pub server_base_url: Option<String>,
}

impl Default for AppConfig {
    fn default() -> (r: Self)
        ensures
            r.state.fonts_dir is None,
            r.limits.wf(),
            r.limits.max_dimension == MAX_DIMENSION,
            r.limits.max_scale_bits == MAX_SCALE_BITS,
            r.limits.max_animation_time_bits == MAX_ANIMATION_TIME_BITS,
            r.max_body_size == DEFAULT_MAX_BODY_SIZE,
            r.server_base_url is None,
    {
        AppConfig {
            state: AppState { fonts_dir: None },
            limits: AppLimits::default(),
            max_body_size: DEFAULT_MAX_BODY_SIZE,
            server_base_url: None,
        }
    }
}

} // verus!
