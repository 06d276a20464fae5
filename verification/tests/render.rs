use anyrender::ImageRenderer;
use html_to_image::config::{AppLimits, AppState};
use html_to_image::jsonval::JsonValue;
use html_to_image::pipeline::{prepare_render, RenderJob};
use html_to_image::png::encode_png;
use html_to_image::request::RenderRequest;
use html_to_image::template::render_template;

fn obj(entries: Vec<(&str, JsonValue)>) -> JsonValue {
    JsonValue::Obj(entries.into_iter().map(|(k, v)| (k.to_string(), v)).collect())
}

fn text(s: &str) -> JsonValue {
    JsonValue::Str(s.to_string())
}

fn request(html: &str, width: u32, height: u32, data: Option<JsonValue>) -> RenderRequest {
    RenderRequest {
        html: html.to_string(),
        width,
        height,
        scale_bits: 1.0f64.to_bits(),
        animation_time_bits: 5.0f64.to_bits(),
        font_paths: None,
        data,
    }
}

fn paint_job(job: &RenderJob) -> Vec<u8> {
    let font_ctx = html_to_image::fontreg::new_font_context();
    let cfg = blitz_dom::DocumentConfig {
        font_ctx: Some(font_ctx),
        ..Default::default()
    };
    let mut doc = blitz_html::HtmlDocument::from_html(job.html.as_str(), cfg);
    doc.resolve(f64::from_bits(job.animation_time_bits));
    doc.resolve_layout();
    let mut renderer =
        anyrender_vello_cpu::VelloCpuImageRenderer::new(job.width, job.height);
    let mut rgba = vec![0u8; (job.width * job.height * 4) as usize];
    renderer.render(
        |scene| {
            blitz_paint::paint_scene(
                scene,
                &doc,
                f64::from_bits(job.scale_bits),
                job.width,
                job.height,
            );
        },
        &mut rgba,
    );
    rgba
}

fn run_pipeline(req: RenderRequest) -> Result<Vec<u8>, html_to_image::errors::ApiError> {
    let state = AppState { fonts_dir: None };
    let limits = AppLimits::default();
    let job = prepare_render(req, &state, &limits)?;
    let rgba = paint_job(&job);
    encode_png(&rgba, job.width, job.height)
        .map_err(html_to_image::errors::ApiError::from_render_error)
}

#[test]
fn render_template_injects_data() {
    let template = "<div>{{ user }} {{ icon }} {{ message }} {{ width }}</div>";
    let data = obj(vec![
        ("user", text("User")),
        ("icon", text("★")),
        ("message", text("hi")),
        ("width", JsonValue::Num("420".to_string())),
    ]);

    let rendered = render_template(template, &data).expect("template should render");
    assert!(rendered.contains("User"), "user missing");
    assert!(rendered.contains("★"), "icon missing");
    assert!(rendered.contains("hi"), "message missing");
    assert!(rendered.contains("420"), "width missing");
}

#[test]
fn render_template_escapes_html_in_data() {
    let template = "<div>{{ name }}</div>";
    let data = obj(vec![("name", text("<script>alert(1)</script>"))]);
    let rendered = render_template(template, &data).expect("template should render");
    assert!(!rendered.contains("<script>"));
    assert!(rendered.contains("&lt;script&gt;"));
}

#[test]
fn render_template_rejects_bad_syntax() {
    let data = obj(vec![]);
    let err = render_template("<div>{{ broken", &data).unwrap_err();
    let msg = err.message();
    assert!(msg.contains("template"), "unexpected message: {msg}");
}

#[test]
fn pipeline_returns_png_for_valid_request() {
    let data = obj(vec![("name", text("Test User"))]);
    let req = request(
        "<html><body><div>{{ name }}</div></body></html>",
        64,
        48,
        Some(data),
    );
    let bytes = run_pipeline(req).expect("pipeline should succeed");
    assert!(
        bytes.starts_with(b"\x89PNG\r\n\x1a\n"),
        "response should be a PNG"
    );
}

#[test]
fn pipeline_round_trip_has_png_signature() {
    let req = request("<html><body><div>Hello</div></body></html>", 64, 48, None);
    let bytes = run_pipeline(req).expect("pipeline should succeed");
    assert!(bytes.starts_with(b"\x89PNG\r\n\x1a\n"), "output is not a PNG");
}

#[test]
fn pipeline_is_idempotent_for_equal_requests() {
    let make = || {
        request(
            "<html><body><div>{{ n }}</div></body></html>",
            32,
            24,
            Some(obj(vec![("n", text("twice"))])),
        )
    };
    let first = run_pipeline(make());
    let second = run_pipeline(make());
    match (first, second) {
        (Ok(a), Ok(b)) => assert_eq!(a, b, "same request, different bytes"),
        (a, b) => panic!(
            "expected both runs to succeed: {:?} vs {:?}",
            a.is_ok(),
            b.is_ok()
        ),
    }
}

#[test]
fn pipeline_rejects_zero_width_naming_width() {
    let req = request("<div>hi</div>", 0, 48, None);
    let state = AppState { fonts_dir: None };
    let limits = AppLimits::default();
    let err = prepare_render(req, &state, &limits).unwrap_err();
    assert_eq!(err.status(), 400);
    assert_eq!(err.message(), "invalid request: width must be between 1 and 4096");
    let body = err.error_body();
    assert!(body.contains("width"), "body should name width: {body}");
    assert!(body.starts_with("{\"error\":"));
}

#[test]
fn pipeline_rejects_oversized_height() {
    let req = request("<div>hi</div>", 64, 4097, None);
    let state = AppState { fonts_dir: None };
    let limits = AppLimits::default();
    let err = prepare_render(req, &state, &limits).unwrap_err();
    assert_eq!(err.status(), 400);
    assert_eq!(
        err.message(),
        "invalid request: height must be between 1 and 4096"
    );
}
