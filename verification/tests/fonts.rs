use html_to_image::config::AppState;
use html_to_image::errors::{ApiError, RenderError};
use html_to_image::fontreg::{new_font_context, register_fonts};
use html_to_image::fonts::{
    accept_canonical, resolve_font_name, resolve_font_paths, resolve_requested_fonts,
};

fn names(list: &[&str]) -> Vec<String> {
    list.iter().map(|s| s.to_string()).collect()
}

#[test]
fn traversal_name_is_refused_without_filesystem_access() {
    // The fonts directory does not even exist: the separator check
    // fires before any filesystem call could.
    let dir = "/no-such-fonts-directory".to_string();
    match resolve_font_paths(&dir, &names(&["../../etc/passwd"])) {
        Err(ApiError::FontsNotAllowed) => {}
        other => panic!("expected FontsNotAllowed, got {:?}", other.is_ok()),
    }
}

#[test]
fn backslash_name_is_refused() {
    let dir = "/fonts".to_string();
    match resolve_font_paths(&dir, &names(&["..\\..\\boot.ini"])) {
        Err(ApiError::FontsNotAllowed) => {}
        other => panic!("expected FontsNotAllowed, got {:?}", other.is_ok()),
    }
}

#[test]
fn fonts_requested_without_directory_are_refused() {
    let state = AppState { fonts_dir: None };
    let requested = names(&["a.ttf"]);
    match resolve_requested_fonts(&state, Some(&requested)) {
        Err(ApiError::FontsNotAllowed) => {}
        other => panic!("expected FontsNotAllowed, got {:?}", other.is_ok()),
    }
}

#[test]
fn empty_font_list_needs_no_directory() {
    let state = AppState { fonts_dir: None };
    let requested: Vec<String> = Vec::new();
    let resolved = resolve_requested_fonts(&state, Some(&requested)).expect("empty list is fine");
    assert!(resolved.is_empty());
    let resolved = resolve_requested_fonts(&state, None).expect("no list is fine");
    assert!(resolved.is_empty());
}

#[test]
fn missing_font_is_a_validation_failure() {
    let dir = "/".to_string();
    match resolve_font_name(&dir, &"no-such-font-file.ttf".to_string()) {
        Err(ApiError::Validation(msg)) => {
            assert!(msg.contains("font not found"), "unexpected message: {msg}");
            assert!(msg.contains("no-such-font-file.ttf"));
        }
        other => panic!("expected Validation, got {:?}", other.is_ok()),
    }
}

#[test]
fn canonical_path_outside_directory_is_refused() {
    let dir = "/fonts".to_string();
    match accept_canonical(&dir, "/etc/passwd".to_string()) {
        Err(ApiError::FontsNotAllowed) => {}
        other => panic!("expected FontsNotAllowed, got {:?}", other.is_ok()),
    }
}

#[test]
fn sibling_directory_sharing_a_prefix_is_refused() {
    let dir = "/fonts".to_string();
    match accept_canonical(&dir, "/fonts-evil/a.ttf".to_string()) {
        Err(ApiError::FontsNotAllowed) => {}
        other => panic!("expected FontsNotAllowed, got {:?}", other.is_ok()),
    }
}

#[test]
fn canonical_path_inside_directory_is_accepted() {
    let dir = "/fonts".to_string();
    let p = accept_canonical(&dir, "/fonts/a.ttf".to_string()).expect("inside the sandbox");
    assert_eq!(p, "/fonts/a.ttf");
    let p = accept_canonical(&dir, "/fonts".to_string()).expect("the directory itself");
    assert_eq!(p, "/fonts");
}

#[test]
fn unreadable_font_fails_the_request() {
    let mut ctx = new_font_context();
    let loads = vec![("a.ttf".to_string(), None)];
    match register_fonts(&mut ctx, loads) {
        Err(RenderError::ReadFont { path }) => assert_eq!(path, "a.ttf"),
        other => panic!("expected ReadFont, got {:?}", other.is_ok()),
    }
}

#[test]
fn font_bytes_without_faces_fail_the_request() {
    let mut ctx = new_font_context();
    let loads = vec![("junk.bin".to_string(), Some(vec![0u8, 1, 2, 3]))];
    match register_fonts(&mut ctx, loads) {
        Err(RenderError::RegisterFont { path }) => {
            assert_eq!(path, "junk.bin");
            let e = RenderError::RegisterFont { path };
            assert_eq!(e.message(), "no loadable fonts found at junk.bin");
        }
        other => panic!("expected RegisterFont, got {:?}", other.is_ok()),
    }
}

#[test]
fn first_failure_wins_in_font_list() {
    let dir = "/fonts".to_string();
    // The first name fails on the separator check before the second
    // (which would not resolve) is ever looked at.
    match resolve_font_paths(&dir, &names(&["../x.ttf", "missing.ttf"])) {
        Err(ApiError::FontsNotAllowed) => {}
        other => panic!("expected FontsNotAllowed, got {:?}", other.is_ok()),
    }
}
