use vstd::prelude::*;
use crate::buffer::GlBufferRaw;
use crate::enums::TEXTURE0;
use crate::error::GlError;
use crate::framebuffer::GlFramebuffer;
use crate::shaders::GlShaderUniform;

verus! {

/// Where a draw goes: an off-screen framebuffer, or the screen at the given
/// pixel size.
pub enum RenderTarget<'a> {
    Framebuffer(&'a GlFramebuffer),
    Screen(usize, usize),
}

/// The framebuffer to bind (0 is the screen) and the viewport to set.
#[derive(Clone, Copy, Debug, PartialEq, Eq, Structural)]
pub struct TargetBinding {
    pub framebuffer: u32,
    pub width: i32,
    pub height: i32,
}

pub open spec fn target_size(target: RenderTarget) -> (usize, usize) {
    match target {
        RenderTarget::Framebuffer(fb) => (fb.w, fb.h),
        RenderTarget::Screen(w, h) => (w, h),
    }
}

pub open spec fn target_handle(target: RenderTarget) -> u32 {
    match target {
        RenderTarget::Framebuffer(fb) => fb.handle,
        RenderTarget::Screen(_, _) => 0,
    }
}

/// Binding for `target`: its framebuffer, with the viewport covering its
/// whole size.
pub fn bind_target(target: &RenderTarget) -> (r: TargetBinding)
    requires
        target_size(*target).0 <= i32::MAX,
        target_size(*target).1 <= i32::MAX,
    ensures
        r.framebuffer == target_handle(*target),
        r.width == target_size(*target).0,
        r.height == target_size(*target).1,
{
    match target {
        RenderTarget::Framebuffer(fb) => TargetBinding {
            framebuffer: fb.handle,
            width: fb.w as i32,
            height: fb.h as i32,
        },
        RenderTarget::Screen(w, h) => TargetBinding {
            framebuffer: 0,
            width: *w as i32,
            height: *h as i32,
        },
    }
}

/// The framebuffer that a clear goes to: the given one, else the screen (0).
pub fn clear_target(fb: Option<&GlFramebuffer>) -> (r: u32)
    ensures
        r == match fb {
            Some(f) => f.handle,
            None => 0u32,
        },
{
    match fb {
        Some(f) => f.handle,
        None => 0,
    }
}

/// A texture to bind to texture unit `unit` before a uniform is set.
#[derive(Clone, Copy, Debug, PartialEq, Eq, Structural)]
pub struct TextureBinding {
    pub unit: u32,
    pub texture: u32,
}

/// One uniform assignment of a draw: the texture to bind first, if any, and
/// the value then handed to the program.
#[derive(Clone, Copy, Debug)]
pub struct UniformStep {
    pub texture: Option<TextureBinding>,
    pub value: GlShaderUniform,
}

pub open spec fn is_texture(u: GlShaderUniform) -> bool {
    u is TextureHandle
}

/// How many texture-handle uniforms stand in `s` before position `i`.
pub open spec fn textures_before(s: Seq<GlShaderUniform>, i: int) -> nat
    decreases i,
{
    if i <= 0 {
        0
    } else if is_texture(s[i - 1]) {
        textures_before(s, i - 1) + 1
    } else {
        textures_before(s, i - 1)
    }
}

/// The step for the uniform at position `i` of `s`: a texture handle takes the
/// next texture unit and the uniform is set to that unit's number; any other
/// value is set as it is.
pub open spec fn uniform_step(s: Seq<GlShaderUniform>, i: int) -> (Option<TextureBinding>, GlShaderUniform) {
    match s[i] {
        GlShaderUniform::TextureHandle(h) => (
            Some(TextureBinding { unit: (TEXTURE0 + textures_before(s, i)) as u32, texture: h }),
            GlShaderUniform::Int(textures_before(s, i) as i32),
        ),
        u => (None, u),
    }
}

pub open spec fn step_matches(step: UniformStep, want: (Option<TextureBinding>, GlShaderUniform)) -> bool {
    &&& step.texture == want.0
    &&& match (step.value, want.1) {
        (GlShaderUniform::Int(a), GlShaderUniform::Int(b)) => a == b,
        (GlShaderUniform::TextureHandle(a), GlShaderUniform::TextureHandle(b)) => a == b,
        (GlShaderUniform::Mat4x4(a), GlShaderUniform::Mat4x4(b)) => a@ == b@,
        (GlShaderUniform::Vec2(a), GlShaderUniform::Vec2(b)) => a@ == b@,
        (GlShaderUniform::Vec3(a), GlShaderUniform::Vec3(b)) => a@ == b@,
        (GlShaderUniform::Vec4(a), GlShaderUniform::Vec4(b)) => a@ == b@,
        (GlShaderUniform::Float(a), GlShaderUniform::Float(b)) => a == b,
        _ => false,
    }
}

proof fn lemma_textures_before_bound(s: Seq<GlShaderUniform>, i: int)
    requires
        0 <= i <= s.len(),
    ensures
        textures_before(s, i) <= i,
    decreases i,
{
    if i > 0 {
        lemma_textures_before_bound(s, i - 1);
    }
}

/// The steps that apply `uniforms` in order, handing texture units out from
/// unit 0 upward, one per texture-handle uniform.
pub fn plan_uniforms(uniforms: &Vec<GlShaderUniform>) -> (r: Vec<UniformStep>)
    requires
        uniforms@.len() <= i32::MAX,
    ensures
        r@.len() == uniforms@.len(),
        forall|i: int| 0 <= i < r@.len() ==> step_matches(#[trigger] r@[i], uniform_step(uniforms@, i)),
{
    let mut r: Vec<UniformStep> = Vec::new();
    let mut unit: u32 = 0;
    let mut i: usize = 0;
    while i < uniforms.len()
        invariant
            i <= uniforms@.len(),
            uniforms@.len() <= i32::MAX,
            unit == textures_before(uniforms@, i as int),
            r@.len() == i,
            forall|j: int| 0 <= j < i ==> step_matches(#[trigger] r@[j], uniform_step(uniforms@, j)),
        decreases uniforms@.len() - i,
    {
        proof {
            lemma_textures_before_bound(uniforms@, i as int);
        }
        let u = uniforms[i];
        let step = match u {
            GlShaderUniform::TextureHandle(h) => {
                let s = UniformStep {
                    texture: Some(TextureBinding { unit: TEXTURE0 + unit, texture: h }),
                    value: GlShaderUniform::Int(unit as i32),
                };
                unit = unit + 1;
                s
            },
            other => UniformStep { texture: None, value: other },
        };
        r.push(step);
        i = i + 1;
    }
    r
}

pub open spec fn uniform_failure_text(name: Seq<char>, u: GlShaderUniform, cause: Seq<char>) -> Seq<char> {
    "Error setting \""@ + name + "\" to "@ + u.spec_name() + ": "@ + cause
}

/// The failure of a draw whose uniform `name`, set to `uniform`, failed with
/// `cause`.
pub fn uniform_failure(name: &str, uniform: &GlShaderUniform, cause: &GlError) -> (r: GlError)
    ensures
        r@ == uniform_failure_text(name@, *uniform, cause@),
{
    proof {
        reveal_strlit("Error setting \"");
        reveal_strlit("\" to ");
        reveal_strlit(": ");
    }
    let msg = String::from_str("Error setting \"");
    let msg = msg.concat(name);
    let msg = msg.concat("\" to ");
    let msg = msg.concat(uniform.kind_name());
    let msg = msg.concat(": ");
    let msg = msg.concat(cause.message());
    GlError::new(msg)
}

/// An indexed draw of triangles: the index buffer to bind, the number of
/// indices and their scalar type, read from the start of the buffer.
#[derive(Clone, Copy, Debug, PartialEq, Eq, Structural)]
pub struct IndexedDraw {
    pub buffer: u32,
    pub count: i32,
    pub index_type: u32,
}

/// The indexed draw over all of `index_buffer`: each of its elements gives
/// `component_count` indices.
pub fn indexed_draw(index_buffer: &GlBufferRaw) -> (r: IndexedDraw)
    requires
        index_buffer.el_count * index_buffer.component_count <= i32::MAX,
    ensures
        r.buffer == index_buffer.buffer_id,
        r.count == index_buffer.el_count * index_buffer.component_count,
        r.index_type == index_buffer.gl_type_enum,
{
    IndexedDraw {
        buffer: index_buffer.buffer_id,
        count: (index_buffer.el_count * index_buffer.component_count) as i32,
        index_type: index_buffer.gl_type_enum,
    }
}

} // verus!
