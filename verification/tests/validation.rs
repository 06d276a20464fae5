use html_to_image::config::AppLimits;
use html_to_image::errors::ApiError;
use html_to_image::request::RenderRequest;
use html_to_image::validate::validate_request;

fn base_request() -> RenderRequest {
    RenderRequest {
        html: "<div></div>".to_string(),
        width: 64,
        height: 48,
        scale_bits: 1.0f64.to_bits(),
        animation_time_bits: 5.0f64.to_bits(),
        font_paths: None,
        data: None,
    }
}

fn expect_validation(req: &RenderRequest, expected: &str) {
    let limits = AppLimits::default();
    match validate_request(req, &limits) {
        Err(ApiError::Validation(msg)) => assert_eq!(msg, expected),
        other => panic!("expected a validation failure, got {:?}", other.is_ok()),
    }
}

#[test]
fn validate_accepts_defaults() {
    let limits = AppLimits::default();
    assert!(validate_request(&base_request(), &limits).is_ok());
}

#[test]
fn validate_rejects_zero_width() {
    let mut req = base_request();
    req.width = 0;
    expect_validation(&req, "width must be between 1 and 4096");
}

#[test]
fn validate_rejects_oversized_width() {
    let mut req = base_request();
    req.width = 4097;
    expect_validation(&req, "width must be between 1 and 4096");
}

#[test]
fn validate_accepts_boundary_dimensions() {
    let limits = AppLimits::default();
    let mut req = base_request();
    req.width = 4096;
    req.height = 1;
    assert!(validate_request(&req, &limits).is_ok());
}

#[test]
fn validate_rejects_zero_scale() {
    let mut req = base_request();
    req.scale_bits = 0.0f64.to_bits();
    expect_validation(&req, "scale must be within (0, 8]");
}

#[test]
fn validate_rejects_negative_scale() {
    let mut req = base_request();
    req.scale_bits = (-1.5f64).to_bits();
    expect_validation(&req, "scale must be within (0, 8]");
}

#[test]
fn validate_rejects_nan_scale() {
    let mut req = base_request();
    req.scale_bits = f64::NAN.to_bits();
    expect_validation(&req, "scale must be within (0, 8]");
}

#[test]
fn validate_rejects_infinite_scale() {
    let mut req = base_request();
    req.scale_bits = f64::INFINITY.to_bits();
    expect_validation(&req, "scale must be within (0, 8]");
}

#[test]
fn validate_rejects_scale_above_bound() {
    let mut req = base_request();
    req.scale_bits = 8.5f64.to_bits();
    expect_validation(&req, "scale must be within (0, 8]");
}

#[test]
fn validate_accepts_scale_at_bound() {
    let limits = AppLimits::default();
    let mut req = base_request();
    req.scale_bits = 8.0f64.to_bits();
    assert!(validate_request(&req, &limits).is_ok());
}

#[test]
fn validate_rejects_negative_animation_time() {
    let mut req = base_request();
    req.animation_time_bits = (-0.25f64).to_bits();
    expect_validation(&req, "animation_time must be between 0 and 60 seconds");
}

#[test]
fn validate_rejects_nan_animation_time() {
    let mut req = base_request();
    req.animation_time_bits = f64::NAN.to_bits();
    expect_validation(&req, "animation_time must be between 0 and 60 seconds");
}

#[test]
fn validate_rejects_animation_time_above_bound() {
    let mut req = base_request();
    req.animation_time_bits = 60.5f64.to_bits();
    expect_validation(&req, "animation_time must be between 0 and 60 seconds");
}

#[test]
fn validate_accepts_negative_zero_animation_time() {
    // -0.0 compares equal to 0.0, so it is inside the allowed range.
    let limits = AppLimits::default();
    let mut req = base_request();
    req.animation_time_bits = (-0.0f64).to_bits();
    assert!(validate_request(&req, &limits).is_ok());
}

#[test]
fn validate_reports_width_before_scale() {
    let mut req = base_request();
    req.width = 0;
    req.scale_bits = f64::NAN.to_bits();
    expect_validation(&req, "width must be between 1 and 4096");
}
