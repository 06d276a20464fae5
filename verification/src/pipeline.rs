use vstd::prelude::*;

use crate::config::{AppLimits, AppState};
use crate::context::{build_context, context_entries, data_view};
use crate::errors::{ApiError, ApiErrorV};
use crate::fonts::{has_separator, path_within, resolve_requested_fonts};
use crate::jsontext::json_text;
use crate::jsonval::JsonVal;
use crate::request::RenderRequest;
use crate::template::{expand_of, render_template};
use crate::validate::{validate_request, validation_failure};

verus! {

// The request pipeline: validate, resolve fonts, build and serialize
// the context, expand the template. What comes out is a `RenderJob`,
// everything the CPU-bound paint stage needs; the rim dispatches that
// stage to a worker so the request-accepting scheduler never blocks on
// it, then hands the painted buffer to the codec. Each step either
// feeds the next or short-circuits with one classified `ApiError`.

/// Everything the paint stage needs, prepared and checked on the
/// request path: the expanded document, the checked dimensions and
/// clock, and the sandbox-checked font paths.
#[derive(Debug)]
pub struct RenderJob {
    pub html: String,
    pub width: u32,
    pub height: u32,
    pub scale_bits: u64,
    pub animation_time_bits: u64,
    pub font_paths: Vec<String>,
}

/// The serialized context for a request: a function of the dimensions
/// and the caller's data.
pub open spec fn context_text(width: nat, height: nat, data: Option<JsonVal>) -> Seq<char> {
    json_text(JsonVal::Obj(context_entries(width, height, data)))
}

/// The expansion outcome for a request: a function of its fields.
pub open spec fn expansion_of(
    html: Seq<char>,
    width: nat,
    height: nat,
    data: Option<JsonVal>,
) -> Option<Seq<char>> {
    expand_of(html, context_text(width, height, data))
}

/// Run the request path up to the paint stage: validate against the
/// limits, resolve the fonts against the sandbox, build the context
/// and expand the template. The first failure classifies the request;
/// no partial result survives it.
pub fn prepare_render(req: RenderRequest, state: &AppState, limits: &AppLimits) -> (r: Result<
    RenderJob,
    ApiError,
>)
    ensures
        validation_failure(req, *limits) matches Some(m) ==> (r matches Err(e) && e@
            == ApiErrorV::Validation(m)),
        r matches Ok(job) ==> ({
            &&& validation_failure(req, *limits) is None
            &&& job.width == req.width
            &&& job.height == req.height
            &&& job.scale_bits == req.scale_bits
            &&& job.animation_time_bits == req.animation_time_bits
            &&& expansion_of(
                req.html@,
                req.width as nat,
                req.height as nat,
                data_view(req.data),
            ) == Some(job.html@)
            &&& (req.font_paths is None ==> job.font_paths@.len() == 0)
            &&& (req.font_paths matches Some(v) ==> job.font_paths@.len() == v@.len())
            &&& (state.fonts_dir matches Some(dir) ==> forall|i: int|
                0 <= i < job.font_paths@.len() ==> path_within(
                    #[trigger] job.font_paths@[i]@,
                    dir@,
                ))
        }),
        r matches Err(e) ==> (e@ is Validation || e@ is FontsNotAllowed),
        validation_failure(req, *limits) is None ==> (req.font_paths matches Some(v)
            && v@.len() > 0 && state.fonts_dir is None ==> (r matches Err(e) && e@
            == ApiErrorV::FontsNotAllowed)),
        validation_failure(req, *limits) is None ==> (req.font_paths matches Some(v)
            && v@.len() > 0 && state.fonts_dir is Some && has_separator(v@[0]@) ==> (r matches
        Err(e) && e@ == ApiErrorV::FontsNotAllowed)),
        ({
            &&& validation_failure(req, *limits) is None
            &&& (req.font_paths is None || (req.font_paths matches Some(v) && v@.len() == 0))
        }) ==> (match expansion_of(
            req.html@,
            req.width as nat,
            req.height as nat,
            data_view(req.data),
        ) {
            Some(h) => r matches Ok(job) && job.html@ == h,
            None => r matches Err(e) && e@ is Validation,
        }),
{
    match validate_request(&req, limits) {
        Err(e) => {
            return Err(e);
        },
        Ok(()) => {},
    }
    let resolved_fonts = match resolve_requested_fonts(state, req.font_paths.as_ref()) {
        Ok(p) => p,
        Err(e) => {
            return Err(e);
        },
    };
    let RenderRequest { html, width, height, scale_bits, animation_time_bits, data, .. } = req;
    let context = build_context(width, height, data);
    let expanded = match render_template(html.as_str(), &context) {
        Ok(h) => h,
        Err(e) => {
            return Err(ApiError::from_render_error(e));
        },
    };
    Ok(
        RenderJob {
            html: expanded,
            width,
            height,
            scale_bits,
            animation_time_bits,
            font_paths: resolved_fonts,
        },
    )
}

/// The request path is free of hidden state: whether validation
/// passes, whether the template expands, and the expanded document
/// are functions of the request's fields and the configured limits
/// alone, so two runs on the same request reach the same outcome up
/// to the paint stage. (What the paint engine then draws also depends
/// on the fonts installed on the machine, so byte-level idempotence
/// of a deployment is exercised by test, not stated here.)
pub proof fn lemma_prepare_deterministic(
    req1: RenderRequest,
    req2: RenderRequest,
    limits: AppLimits,
)
    requires
        req1.html@ == req2.html@,
        req1.width == req2.width,
        req1.height == req2.height,
        req1.scale_bits == req2.scale_bits,
        req1.animation_time_bits == req2.animation_time_bits,
        data_view(req1.data) == data_view(req2.data),
    ensures
        validation_failure(req1, limits) == validation_failure(req2, limits),
        expansion_of(req1.html@, req1.width as nat, req1.height as nat, data_view(req1.data))
            == expansion_of(
            req2.html@,
            req2.width as nat,
            req2.height as nat,
            data_view(req2.data),
        ),
{
}

} // verus!

