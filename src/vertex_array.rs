use vstd::prelude::*;
use crate::buffer::GlBufferRaw;
use crate::enums::NO_ERROR;
use crate::error::{flag_error, validate_gl, GlError};

verus! {

/// Attribute slot `slot` reads buffer `buffer_id`, one attribute of
/// `components` scalars of type `gl_type` per vertex, tightly packed from the
/// start of the buffer.
#[derive(Clone, Copy, Debug, PartialEq, Eq, Structural)]
pub struct AttribBinding {
    pub slot: u32,
    pub buffer_id: u32,
    pub components: i32,
    pub gl_type: u32,
}

pub open spec fn binding_of(i: int, b: GlBufferRaw) -> AttribBinding {
    AttribBinding {
        slot: i as u32,
        buffer_id: b.buffer_id,
        components: b.component_count as i32,
        gl_type: b.gl_type_enum,
    }
}

pub open spec fn bindable(vbs: Seq<GlBufferRaw>) -> bool {
    &&& vbs.len() <= u32::MAX
    &&& forall|i: int| 0 <= i < vbs.len() ==> #[trigger] vbs[i].component_count <= i32::MAX
}

/// The attribute layout of a vertex array over `vbs`: buffer `i` feeds slot
/// `i`, with its own component count and scalar type.
pub fn attribute_bindings(vbs: &Vec<GlBufferRaw>) -> (r: Vec<AttribBinding>)
    requires
        bindable(vbs@),
    ensures
        r@ == Seq::new(vbs@.len(), |i: int| binding_of(i, vbs@[i])),
{
    let mut r: Vec<AttribBinding> = Vec::new();
    let mut i: usize = 0;
    while i < vbs.len()
        invariant
            i <= vbs@.len(),
            bindable(vbs@),
            r@ == Seq::new(i as nat, |j: int| binding_of(j, vbs@[j])),
        decreases vbs@.len() - i,
    {
        let b = vbs[i];
        assert(vbs@[i as int].component_count <= i32::MAX);
        r.push(
            AttribBinding {
                slot: i as u32,
                buffer_id: b.buffer_id,
                components: b.component_count as i32,
                gl_type: b.gl_type_enum,
            },
        );
        i = i + 1;
        assert(r@ =~= Seq::new(i as nat, |j: int| binding_of(j, vbs@[j])));
    }
    r
}

/// A vertex array: its identifier and the number of vertices it draws.
#[derive(Clone, Copy, Debug, PartialEq, Eq, Structural)]
pub struct GlVertexArray {
    pub gl_handle: u32,
    pub vertex_count: i32,
}

impl GlVertexArray {
    /// The vertex array `gl_handle` set up over `vbs`, once the error flag
    /// read `flag`. It draws as many vertices as the first buffer has
    /// elements; that the other buffers agree is the caller's concern.
    pub fn new(vbs: &Vec<GlBufferRaw>, gl_handle: u32, flag: u32) -> (r: Result<GlVertexArray, GlError>)
        requires
            vbs@.len() > 0,
            vbs@[0].el_count <= i32::MAX,
        ensures
            r is Ok <==> flag == NO_ERROR,
            r matches Ok(va) ==> va.gl_handle == gl_handle && va.vertex_count == vbs@[0].el_count,
            r matches Err(e) ==> e@ == flag_error(flag),
    {
        match validate_gl(flag) {
            Err(e) => Err(e),
            Ok(()) => Ok(GlVertexArray { gl_handle, vertex_count: vbs[0].el_count as i32 }),
        }
    }

    pub fn gl_vao_handle(&self) -> (r: u32)
        ensures
            r == self.gl_handle,
    {
        self.gl_handle
    }

    /// Forgets the identifier once the backend has released the array.
    pub fn mark_released(&mut self)
        ensures
            final(self).gl_handle == 0,
            final(self).vertex_count == old(self).vertex_count,
    {
        self.gl_handle = 0;
    }
}

} // verus!
