use glwrap::enums;
use glwrap::error::{decimal_string, validate_gl, GlError};

#[test]
fn clear_flag_is_success() {
    assert!(validate_gl(0).is_ok());
}

#[test]
fn raised_flag_names_its_code() {
    let e = validate_gl(1282).unwrap_err();
    assert_eq!(e.message(), "1282");
}

#[test]
fn decimal_notation() {
    assert_eq!(decimal_string(0), "0");
    assert_eq!(decimal_string(7), "7");
    assert_eq!(decimal_string(10), "10");
    assert_eq!(decimal_string(36054), "36054");
    assert_eq!(decimal_string(u64::MAX), u64::MAX.to_string());
}

#[test]
fn error_keeps_its_text() {
    let e = GlError::new("link failed".to_string());
    assert_eq!(e.message(), "link failed");
}

#[test]
fn enumerants_match_the_bindings() {
    assert_eq!(enums::NO_ERROR, gl::NO_ERROR);
    assert_eq!(enums::UNSIGNED_BYTE, gl::UNSIGNED_BYTE);
    assert_eq!(enums::UNSIGNED_SHORT, gl::UNSIGNED_SHORT);
    assert_eq!(enums::UNSIGNED_INT, gl::UNSIGNED_INT);
    assert_eq!(enums::FLOAT, gl::FLOAT);
    assert_eq!(enums::RED, gl::RED);
    assert_eq!(enums::RGBA, gl::RGBA);
    assert_eq!(enums::RGBA8, gl::RGBA8);
    assert_eq!(enums::NEAREST, gl::NEAREST);
    assert_eq!(enums::LINEAR, gl::LINEAR);
    assert_eq!(enums::LINEAR_MIPMAP_LINEAR, gl::LINEAR_MIPMAP_LINEAR);
    assert_eq!(enums::TEXTURE0, gl::TEXTURE0);
    assert_eq!(enums::FRAMEBUFFER_COMPLETE, gl::FRAMEBUFFER_COMPLETE);
    assert_eq!(enums::COLOR_ATTACHMENT0, gl::COLOR_ATTACHMENT0);
    assert_eq!(enums::DEPTH_ATTACHMENT, gl::DEPTH_ATTACHMENT);
}
