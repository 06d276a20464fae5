use html_to_image::config::{AppConfig, AppLimits, DEFAULT_MAX_BODY_SIZE, MAX_DIMENSION};
use html_to_image::context::build_context;
use html_to_image::errors::{ApiError, RenderError};
use html_to_image::jsontext::to_json_string;
use html_to_image::jsonval::JsonValue;
use html_to_image::numtext::u32_to_string;
use html_to_image::picks::{pick_icon, pick_message};
use html_to_image::png::encode_png;

fn obj(entries: Vec<(&str, JsonValue)>) -> JsonValue {
    JsonValue::Obj(entries.into_iter().map(|(k, v)| (k.to_string(), v)).collect())
}

#[test]
fn context_starts_from_dimensions() {
    let ctx = build_context(64, 48, None);
    assert_eq!(to_json_string(&ctx), "{\"width\":64,\"height\":48}");
}

#[test]
fn context_data_overrides_width() {
    let data = obj(vec![("width", JsonValue::Num("999".to_string()))]);
    let ctx = build_context(64, 48, Some(data));
    assert_eq!(to_json_string(&ctx), "{\"width\":999,\"height\":48}");
}

#[test]
fn context_merges_new_keys_after_dimensions() {
    let data = obj(vec![("name", JsonValue::Str("Ada".to_string()))]);
    let ctx = build_context(10, 20, Some(data));
    assert_eq!(
        to_json_string(&ctx),
        "{\"width\":10,\"height\":20,\"name\":\"Ada\"}"
    );
}

#[test]
fn context_wraps_non_object_data() {
    let ctx = build_context(1, 2, Some(JsonValue::Num("7".to_string())));
    assert_eq!(to_json_string(&ctx), "{\"width\":1,\"height\":2,\"data\":7}");
}

#[test]
fn json_text_escapes_strings() {
    let v = JsonValue::Str("a\"b\\c\nd".to_string());
    assert_eq!(to_json_string(&v), "\"a\\\"b\\\\c\\u000ad\"");
}

#[test]
fn json_text_renders_nested_values() {
    let v = obj(vec![
        ("ok", JsonValue::Bool(true)),
        ("none", JsonValue::Null),
        (
            "items",
            JsonValue::Arr(vec![
                JsonValue::Num("1".to_string()),
                JsonValue::Str("two".to_string()),
            ]),
        ),
    ]);
    assert_eq!(
        to_json_string(&v),
        "{\"ok\":true,\"none\":null,\"items\":[1,\"two\"]}"
    );
}

#[test]
fn decimal_rendering_is_exact() {
    assert_eq!(u32_to_string(0), "0");
    assert_eq!(u32_to_string(7), "7");
    assert_eq!(u32_to_string(4096), "4096");
    assert_eq!(u32_to_string(u32::MAX), "4294967295");
}

#[test]
fn error_kinds_map_to_http_statuses() {
    assert_eq!(ApiError::validation("x".to_string()).status(), 400);
    assert_eq!(ApiError::FontsNotAllowed.status(), 400);
    assert_eq!(ApiError::Render("x".to_string()).status(), 500);
    assert_eq!(ApiError::internal("x".to_string()).status(), 500);
    assert_eq!(
        ApiError::internal("render task failed".to_string()).message(),
        "render task failed: render task failed"
    );
    assert_eq!(
        ApiError::FontsNotAllowed.message(),
        "font usage is not allowed on this server"
    );
    assert_eq!(
        ApiError::FontsNotAllowed.error_body(),
        "{\"error\":\"font usage is not allowed on this server\"}"
    );
}

#[test]
fn template_failures_classify_as_validation() {
    let e = ApiError::from_render_error(RenderError::RenderTemplate);
    assert!(matches!(e, ApiError::Validation(_)));
    assert_eq!(e.message(), "invalid request: failed to render template");
    assert_eq!(e.status(), 400);

    let e = ApiError::from_render_error(RenderError::ReadFont {
        path: "a.ttf".to_string(),
    });
    assert!(matches!(e, ApiError::Validation(_)));
    assert_eq!(e.status(), 400);
}

#[test]
fn engine_failures_classify_as_render() {
    let e = ApiError::from_render_error(RenderError::WritePng {
        path: "in-memory".to_string(),
    });
    assert!(matches!(e, ApiError::Render(_)));
    assert_eq!(e.message(), "rendering failed: failed to write png: in-memory");
    assert_eq!(e.status(), 500);

    let e = ApiError::from_render_error(RenderError::ReadTemplate {
        path: "t.html".to_string(),
    });
    assert!(matches!(e, ApiError::Render(_)));
    assert_eq!(
        e.message(),
        "rendering failed: failed to read template file: t.html"
    );
}

#[test]
fn encode_png_writes_the_signature() {
    let rgba = vec![0u8; 4 * 4 * 4];
    let bytes = encode_png(&rgba, 4, 4).expect("encoding should succeed");
    assert!(bytes.starts_with(&[0x89, 0x50, 0x4e, 0x47, 0x0d, 0x0a, 0x1a, 0x0a]));
}

#[test]
fn encode_png_succeeds_on_the_smallest_image() {
    let rgba = vec![0u8; 4];
    let bytes = encode_png(&rgba, 1, 1).expect("a 1x1 image is encodable");
    assert!(bytes.starts_with(&[0x89, 0x50, 0x4e, 0x47, 0x0d, 0x0a, 0x1a, 0x0a]));
}

#[test]
fn encode_png_reports_codec_failures() {
    let rgba: Vec<u8> = Vec::new();
    match encode_png(&rgba, 0, 0) {
        Err(RenderError::WritePng { path }) => assert_eq!(path, "in-memory"),
        Ok(_) => panic!("a zero-sized image should be refused by the codec"),
        Err(other) => panic!("unexpected error kind: {other:?}"),
    }
}

#[test]
fn picks_are_deterministic_in_the_drawn_number() {
    assert_eq!(pick_icon(0), pick_icon(11));
    assert_eq!(pick_message(1), pick_message(6));
    assert_eq!(
        pick_message(4),
        "Pixels are aligned and vibes are immaculate."
    );
    assert!(!pick_icon(3).is_empty());
}

#[test]
fn config_defaults_match_the_documented_limits() {
    let config = AppConfig::default();
    assert!(config.state.fonts_dir.is_none());
    assert!(config.server_base_url.is_none());
    assert_eq!(config.max_body_size, DEFAULT_MAX_BODY_SIZE);
    assert_eq!(config.max_body_size, 1024 * 1024);
    let limits = AppLimits::default();
    assert_eq!(limits.max_dimension, MAX_DIMENSION);
    assert_eq!(limits.max_dimension, 4096);
    assert_eq!(limits.max_scale_bits, 8.0f64.to_bits());
    assert_eq!(limits.max_animation_time_bits, 60.0f64.to_bits());
    assert_eq!(limits.max_scale_text, "8");
    assert_eq!(limits.max_animation_time_text, "60");
}
