use vstd::prelude::*;

use crate::jsonval::JsonValue;

verus! {

/// One incoming render request, after the rim has turned the wire
/// format into plain values: real-valued fields arrive as IEEE-754
/// bit patterns, the free-form `data` field as a [`JsonValue`].
#[derive(Debug)]
pub struct RenderRequest {
    /// HTML, possibly holding template placeholders.
    pub html: String,
    /// Output width in pixels.
    pub width: u32,
    /// Output height in pixels.
    pub height: u32,
    /// Bit pattern of the painter scale factor.
    pub scale_bits: u64,
    /// Bit pattern of the virtual animation clock, in seconds.
    pub animation_time_bits: u64,
    /// Font file names to resolve against the configured directory.
    pub font_paths: Option<Vec<String>>,
    /// Free-form template variables.
    pub data: Option<JsonValue>,
}

} // verus!
