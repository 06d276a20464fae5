use vstd::prelude::*;
use vstd::string::*;

use crate::jsontext::json_text;
use crate::jsonval::{lemma_view_entries_pointwise, view_entries, JsonVal, JsonValue};

verus! {

// The error taxonomy. Every failure the pipeline can meet is classified
// into one of the four `ApiError` kinds, each with a fixed HTTP status,
// before it reaches the response boundary. Failures of the rendering
// stages are first collected as a `RenderError` naming the stage, then
// folded into an `ApiError` by `ApiError::from_render_error`.

/// A failure in one of the rendering stages: reading or expanding the
/// template, reading or registering a font, painting or encoding.
#[derive(Debug)]
pub enum RenderError {
    /// The template file could not be read.
    ReadTemplate { path: String },
    /// The template engine refused the template text.
    RegisterTemplate,
    /// The template engine could not hand the template back.
    LoadTemplate,
    /// The template engine failed while expanding the template.
    RenderTemplate,
    /// The output directory could not be created.
    CreateOutputDir { path: String },
    /// The PNG could not be encoded or written.
    WritePng { path: String },
    /// A font file could not be read.
    ReadFont { path: String },
    /// A font file contained no usable font face.
    RegisterFont { path: String },
}

/// The shape of a [`RenderError`], with paths as character sequences.
pub enum RenderErrorV {
    ReadTemplate { path: Seq<char> },
    RegisterTemplate,
    LoadTemplate,
    RenderTemplate,
    CreateOutputDir { path: Seq<char> },
    WritePng { path: Seq<char> },
    ReadFont { path: Seq<char> },
    RegisterFont { path: Seq<char> },
}

impl View for RenderError {
    type V = RenderErrorV;

    open spec fn view(&self) -> RenderErrorV {
        match self {
            RenderError::ReadTemplate { path } => RenderErrorV::ReadTemplate { path: path@ },
            RenderError::RegisterTemplate => RenderErrorV::RegisterTemplate,
            RenderError::LoadTemplate => RenderErrorV::LoadTemplate,
            RenderError::RenderTemplate => RenderErrorV::RenderTemplate,
            RenderError::CreateOutputDir { path } => RenderErrorV::CreateOutputDir { path: path@ },
            RenderError::WritePng { path } => RenderErrorV::WritePng { path: path@ },
            RenderError::ReadFont { path } => RenderErrorV::ReadFont { path: path@ },
            RenderError::RegisterFont { path } => RenderErrorV::RegisterFont { path: path@ },
        }
    }
}

/// The one human-readable message a [`RenderError`] carries.
pub open spec fn render_error_message(e: RenderErrorV) -> Seq<char> {
    match e {
        RenderErrorV::ReadTemplate { path } => "failed to read template file: "@ + path,
        RenderErrorV::RegisterTemplate => "failed to register template"@,
        RenderErrorV::LoadTemplate => "failed to load template from environment"@,
        RenderErrorV::RenderTemplate => "failed to render template"@,
        RenderErrorV::CreateOutputDir { path } => "failed to create output directory: "@ + path,
        RenderErrorV::WritePng { path } => "failed to write png: "@ + path,
        RenderErrorV::ReadFont { path } => "failed to read font at "@ + path,
        RenderErrorV::RegisterFont { path } => "no loadable fonts found at "@ + path,
    }
}

/// A rendering failure is the caller's fault when it comes from the
/// caller-supplied template text or font list; those map to
/// `Validation`. The rest are server-side `Render` failures.
pub open spec fn render_error_is_callers_fault(e: RenderErrorV) -> bool {
    match e {
        RenderErrorV::RegisterTemplate => true,
        RenderErrorV::LoadTemplate => true,
        RenderErrorV::RenderTemplate => true,
        RenderErrorV::ReadFont { .. } => true,
        RenderErrorV::RegisterFont { .. } => true,
        _ => false,
    }
}

impl RenderError {
    /// The stage's message, with the offending path folded in.
    pub fn message(&self) -> (r: String)
        ensures
            r@ == render_error_message(self@),
    {
        match self {
            RenderError::ReadTemplate { path } => String::from_str(
                "failed to read template file: ",
            ).concat(path.as_str()),
            RenderError::RegisterTemplate => String::from_str("failed to register template"),
            RenderError::LoadTemplate => String::from_str(
                "failed to load template from environment",
            ),
            RenderError::RenderTemplate => String::from_str("failed to render template"),
            RenderError::CreateOutputDir { path } => String::from_str(
                "failed to create output directory: ",
            ).concat(path.as_str()),
            RenderError::WritePng { path } => String::from_str("failed to write png: ").concat(
                path.as_str(),
            ),
            RenderError::ReadFont { path } => String::from_str("failed to read font at ").concat(
                path.as_str(),
            ),
            RenderError::RegisterFont { path } => String::from_str(
                "no loadable fonts found at ",
            ).concat(path.as_str()),
        }
    }
}

/// One classified request failure, as the response boundary sees it.
#[derive(Debug)]
pub enum ApiError {
    /// The request itself is malformed, out of range, or names a bad
    /// template or font; the caller must change it before retrying.
    Validation(String),
    /// Fonts were requested on a server with no fonts directory, or a
    /// requested name tried to escape it.
    FontsNotAllowed,
    /// Layout, painting or encoding failed on a valid request.
    Render(String),
    /// The worker executing the render could not be joined.
    Task(String),
}

/// The shape of an [`ApiError`], with messages as character sequences.
pub enum ApiErrorV {
    Validation(Seq<char>),
    FontsNotAllowed,
    Render(Seq<char>),
    Task(Seq<char>),
}

impl View for ApiError {
    type V = ApiErrorV;

    open spec fn view(&self) -> ApiErrorV {
        match self {
            ApiError::Validation(m) => ApiErrorV::Validation(m@),
            ApiError::FontsNotAllowed => ApiErrorV::FontsNotAllowed,
            ApiError::Render(m) => ApiErrorV::Render(m@),
            ApiError::Task(m) => ApiErrorV::Task(m@),
        }
    }
}

/// The message an [`ApiError`] presents to the caller.
pub open spec fn api_error_message(e: ApiErrorV) -> Seq<char> {
    match e {
        ApiErrorV::Validation(m) => "invalid request: "@ + m,
        ApiErrorV::FontsNotAllowed => "font usage is not allowed on this server"@,
        ApiErrorV::Render(m) => "rendering failed: "@ + m,
        ApiErrorV::Task(m) => "render task failed: "@ + m,
    }
}

/// The HTTP status an [`ApiError`] maps to: caller faults are 400,
/// server-side failures are 500.
pub open spec fn api_error_status(e: ApiErrorV) -> u16 {
    match e {
        ApiErrorV::Validation(_) => 400,
        ApiErrorV::FontsNotAllowed => 400,
        ApiErrorV::Render(_) => 500,
        ApiErrorV::Task(_) => 500,
    }
}

/// How a [`RenderError`] folds into an [`ApiError`]: caller faults
/// become `Validation`, the rest `Render`, each keeping its message.
pub open spec fn classify_render_error(e: RenderErrorV) -> ApiErrorV {
    if render_error_is_callers_fault(e) {
        ApiErrorV::Validation(render_error_message(e))
    } else {
        ApiErrorV::Render(render_error_message(e))
    }
}

impl ApiError {
    /// A `Validation` failure with the given message.
    pub fn validation(message: String) -> (r: Self)
        ensures
            r@ == ApiErrorV::Validation(message@),
    {
        ApiError::Validation(message)
    }

    /// A `Task` failure with the given message.
    pub fn internal(message: String) -> (r: Self)
        ensures
            r@ == ApiErrorV::Task(message@),
    {
        ApiError::Task(message)
    }

    /// Fold a rendering-stage failure into its `ApiError` kind.
    pub fn from_render_error(e: RenderError) -> (r: Self)
        ensures
            r@ == classify_render_error(e@),
    {
        let callers_fault = match &e {
            RenderError::RegisterTemplate => true,
            RenderError::LoadTemplate => true,
            RenderError::RenderTemplate => true,
            RenderError::ReadFont { .. } => true,
            RenderError::RegisterFont { .. } => true,
            _ => false,
        };
        let message = e.message();
        if callers_fault {
            ApiError::Validation(message)
        } else {
            ApiError::Render(message)
        }
    }

    /// The HTTP status code for this error.
    pub fn status(&self) -> (r: u16)
        ensures
            r == api_error_status(self@),
    {
        match self {
            ApiError::Validation(_) => 400,
            ApiError::FontsNotAllowed => 400,
            ApiError::Render(_) => 500,
            ApiError::Task(_) => 500,
        }
    }

    /// The JSON body of an error response: an object with the one key
    /// `error` holding the message, exactly as the HTTP layer sends it.
    pub fn error_body(&self) -> (r: String)
        ensures
            r@ == json_text(
                JsonVal::Obj(seq![("error"@, JsonVal::Str(api_error_message(self@)))]),
            ),
    {
        let mut entries: Vec<(String, JsonValue)> = Vec::new();
        entries.push((String::from_str("error"), JsonValue::Str(self.message())));
        let body = JsonValue::Obj(entries);
        proof {
            lemma_view_entries_pointwise(entries@);
            assert(view_entries(entries@).len() == 1);
            assert(view_entries(entries@)[0] == (
                "error"@,
                JsonVal::Str(api_error_message(self@)),
            ));
            assert(body@ matches JsonVal::Obj(es) && es =~= seq![
                ("error"@, JsonVal::Str(api_error_message(self@))),
            ]);
        }
        crate::jsontext::to_json_string(&body)
    }

    /// The message presented to the caller.
    pub fn message(&self) -> (r: String)
        ensures
            r@ == api_error_message(self@),
    {
        match self {
            ApiError::Validation(m) => String::from_str("invalid request: ").concat(m.as_str()),
            ApiError::FontsNotAllowed => String::from_str(
                "font usage is not allowed on this server",
            ),
            ApiError::Render(m) => String::from_str("rendering failed: ").concat(m.as_str()),
            ApiError::Task(m) => String::from_str("render task failed: ").concat(m.as_str()),
        }
    }
}

} // verus!
