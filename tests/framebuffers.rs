use glwrap::enums::{COLOR_ATTACHMENT0, FRAMEBUFFER_COMPLETE};
use glwrap::framebuffer::{color_attachments, GlFramebuffer};

#[test]
fn three_color_textures_give_three_draw_buffers() {
    let fb = GlFramebuffer::new_with_depth(64, 32, vec![5, 6, 7], 2, 3, 0, FRAMEBUFFER_COMPLETE)
        .unwrap();
    assert_eq!(fb.draw_buffers, vec![COLOR_ATTACHMENT0, COLOR_ATTACHMENT0 + 1, COLOR_ATTACHMENT0 + 2]);
    assert_eq!(fb.textures, vec![5, 6, 7]);
    assert_eq!(fb.depth_handle, 3);
    assert_eq!((fb.w, fb.h, fb.handle), (64, 32, 2));
}

#[test]
fn framebuffer_without_color_textures_has_only_depth() {
    let fb = GlFramebuffer::new_with_depth(16, 16, vec![], 4, 9, 0, FRAMEBUFFER_COMPLETE).unwrap();
    assert!(fb.draw_buffers.is_empty());
    assert!(fb.textures.is_empty());
    assert_eq!(fb.depth_handle, 9);
}

#[test]
fn incomplete_framebuffer_is_refused() {
    let e = GlFramebuffer::new_with_depth(16, 16, vec![1], 4, 9, 0, 0x8CD6).unwrap_err();
    assert_eq!(e.message(), "Framebuffer status not complete: 36054");
}

#[test]
fn framebuffer_error_flag_comes_first() {
    let e = GlFramebuffer::new_with_depth(16, 16, vec![1], 4, 9, 1280, 0x8CD6).unwrap_err();
    assert_eq!(e.message(), "1280");
}

#[test]
fn attachment_slots_count_up() {
    assert!(color_attachments(0).is_empty());
    let a = color_attachments(32);
    assert_eq!(a.len(), 32);
    assert_eq!(a[31], COLOR_ATTACHMENT0 + 31);
}
