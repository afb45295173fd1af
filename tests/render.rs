use glwrap::buffer::{GlBufferElementType, GlBufferRaw};
use glwrap::enums::{FRAMEBUFFER_COMPLETE, TEXTURE0, UNSIGNED_INT};
use glwrap::error::GlError;
use glwrap::framebuffer::GlFramebuffer;
use glwrap::render::{
    bind_target, clear_target, indexed_draw, plan_uniforms, uniform_failure, RenderTarget,
    TargetBinding, TextureBinding,
};
use glwrap::shaders::{GlShader, GlShaderUniform};
use glwrap::vertex_array::{attribute_bindings, AttribBinding, GlVertexArray};

#[test]
fn triangle_to_screen() {
    let shader = GlShader::link_outcome(1, 1, String::new()).unwrap();
    assert_eq!(shader.program_handle, 1);
    let vb = GlBufferRaw::new(GlBufferElementType::FloatTriple, 3, 3, 2, 0).unwrap();
    let vbs = vec![vb];
    let va = GlVertexArray::new(&vbs, 5, 0).unwrap();
    assert_eq!(va.vertex_count, 3);
    assert_eq!(va.gl_vao_handle(), 5);
    let binding = bind_target(&RenderTarget::Screen(800, 600));
    assert_eq!(binding, TargetBinding { framebuffer: 0, width: 800, height: 600 });
    assert!(plan_uniforms(&Vec::new()).is_empty());
}

#[test]
fn framebuffer_target_uses_its_size() {
    let fb = GlFramebuffer::new_with_depth(320, 200, vec![8], 6, 7, 0, FRAMEBUFFER_COMPLETE).unwrap();
    let binding = bind_target(&RenderTarget::Framebuffer(&fb));
    assert_eq!(binding, TargetBinding { framebuffer: 6, width: 320, height: 200 });
    assert_eq!(clear_target(Some(&fb)), 6);
    assert_eq!(clear_target(None), 0);
}

#[test]
fn texture_uniforms_take_units_in_order() {
    let m = [0u32; 16];
    let uniforms = vec![
        GlShaderUniform::Mat4x4(m),
        GlShaderUniform::TextureHandle(11),
        GlShaderUniform::Int(7),
        GlShaderUniform::TextureHandle(12),
    ];
    let steps = plan_uniforms(&uniforms);
    assert_eq!(steps.len(), 4);
    assert_eq!(steps[0].texture, None);
    assert!(matches!(steps[0].value, GlShaderUniform::Mat4x4(_)));
    assert_eq!(steps[1].texture, Some(TextureBinding { unit: TEXTURE0, texture: 11 }));
    assert!(matches!(steps[1].value, GlShaderUniform::Int(0)));
    assert_eq!(steps[2].texture, None);
    assert!(matches!(steps[2].value, GlShaderUniform::Int(7)));
    assert_eq!(steps[3].texture, Some(TextureBinding { unit: TEXTURE0 + 1, texture: 12 }));
    assert!(matches!(steps[3].value, GlShaderUniform::Int(1)));
}

#[test]
fn uniform_failure_names_uniform_and_cause() {
    let cause = GlError::new("1282".to_string());
    let e = uniform_failure("tex", &GlShaderUniform::TextureHandle(3), &cause);
    assert_eq!(e.message(), "Error setting \"tex\" to TextureHandle: 1282");
}

#[test]
fn indexed_draw_covers_every_index() {
    let ib = GlBufferRaw::new_index(GlBufferElementType::UIntTriple, 4, 21, 0).unwrap();
    let d = indexed_draw(&ib);
    assert_eq!(d.buffer, 21);
    assert_eq!(d.count, 12);
    assert_eq!(d.index_type, UNSIGNED_INT);
}

#[test]
fn vertex_array_slots_follow_buffer_order() {
    let a = GlBufferRaw::new(GlBufferElementType::FloatTriple, 3, 3, 2, 0).unwrap();
    let b = GlBufferRaw::new(GlBufferElementType::FloatPair, 3, 2, 3, 0).unwrap();
    let r = attribute_bindings(&vec![a, b]);
    assert_eq!(r, vec![
        AttribBinding { slot: 0, buffer_id: 2, components: 3, gl_type: 0x1406 },
        AttribBinding { slot: 1, buffer_id: 3, components: 2, gl_type: 0x1406 },
    ]);
}

#[test]
fn vertex_array_error_is_reported() {
    let a = GlBufferRaw::new(GlBufferElementType::FloatTriple, 3, 3, 2, 0).unwrap();
    let e = GlVertexArray::new(&vec![a], 5, 1282).unwrap_err();
    assert_eq!(e.message(), "1282");
}
