use vstd::prelude::*;
use crate::enums::{FLOAT, NO_ERROR, UNSIGNED_INT, UNSIGNED_SHORT};
use crate::error::{flag_error, validate_gl, GlError};

verus! {

/// The closed table of element layouts a buffer can hold: each gives the
/// scalar type of its components and how many components one element has.
#[derive(Clone, Copy, Debug, PartialEq, Eq, Structural)]
pub enum GlBufferElementType {
    /// one `f32`
    Float,
    /// one `u32`
    UInt,
    /// `[u32; 3]`
    UIntTriple,
    /// one `u16`
    UShort,
    /// `[f32; 2]`
    FloatPair,
    /// `[f32; 3]`
    FloatTriple,
    /// `[f32; 4]`
    FloatQuad,
}

impl GlBufferElementType {
    pub open spec fn spec_gl_type_enum(self) -> u32 {
        match self {
            GlBufferElementType::UInt | GlBufferElementType::UIntTriple => UNSIGNED_INT,
            GlBufferElementType::UShort => UNSIGNED_SHORT,
            _ => FLOAT,
        }
    }

    pub open spec fn spec_components(self) -> nat {
        match self {
            GlBufferElementType::Float => 1,
            GlBufferElementType::UInt => 1,
            GlBufferElementType::UIntTriple => 3,
            GlBufferElementType::UShort => 1,
            GlBufferElementType::FloatPair => 2,
            GlBufferElementType::FloatTriple => 3,
            GlBufferElementType::FloatQuad => 4,
        }
    }

    /// Scalar type tag of one component.
    pub fn gl_type_enum(&self) -> (r: u32)
        ensures
            r == self.spec_gl_type_enum(),
    {
        match self {
            GlBufferElementType::UInt | GlBufferElementType::UIntTriple => UNSIGNED_INT,
            GlBufferElementType::UShort => UNSIGNED_SHORT,
            _ => FLOAT,
        }
    }

    /// Number of scalar components in one element.
    pub fn components_per_element(&self) -> (r: usize)
        ensures
            r == self.spec_components(),
    {
        match self {
            GlBufferElementType::Float => 1,
            GlBufferElementType::UInt => 1,
            GlBufferElementType::UIntTriple => 3,
            GlBufferElementType::UShort => 1,
            GlBufferElementType::FloatPair => 2,
            GlBufferElementType::FloatTriple => 3,
            GlBufferElementType::FloatQuad => 4,
        }
    }
}

/// A backend buffer of any layout: its identifier, how many elements it
/// describes, the components of each and their scalar type.
#[derive(Clone, Copy, Debug, PartialEq, Eq, Structural)]
pub struct GlBufferRaw {
    pub buffer_id: u32,
    pub el_count: usize,
    pub component_count: usize,
    pub gl_type_enum: u32,
}

/// The record of a buffer whose upload left the error flag `flag`: the
/// buffer when the flag is clear, else the failure it reports.
pub open spec fn upload_result(
    flag: u32,
    buffer_id: u32,
    el_count: nat,
    component_count: nat,
    gl_type_enum: u32,
) -> Result<GlBufferRaw, Seq<char>> {
    if flag == NO_ERROR {
        Ok(
            GlBufferRaw {
                buffer_id,
                el_count: el_count as usize,
                component_count: component_count as usize,
                gl_type_enum,
            },
        )
    } else {
        Err(flag_error(flag))
    }
}

pub open spec fn same_outcome(r: Result<GlBufferRaw, GlError>, s: Result<GlBufferRaw, Seq<char>>) -> bool {
    match (r, s) {
        (Ok(a), Ok(b)) => a == b,
        (Err(e), Err(m)) => e@ == m,
        _ => false,
    }
}

/// Element count of a vertex buffer of `len` elements of `ty`, read as
/// vertices of `component_count` components each.
pub open spec fn vertex_count_of(ty: GlBufferElementType, len: nat, component_count: nat) -> nat {
    (ty.spec_components() * len) / component_count
}

impl GlBufferRaw {
    pub open spec fn is_live(&self) -> bool {
        self.buffer_id != 0
    }

    fn finish_upload(
        flag: u32,
        buffer_id: u32,
        el_count: usize,
        component_count: usize,
        gl_type_enum: u32,
    ) -> (r: Result<GlBufferRaw, GlError>)
        ensures
            same_outcome(
                r,
                upload_result(flag, buffer_id, el_count as nat, component_count as nat, gl_type_enum),
            ),
    {
        match validate_gl(flag) {
            Err(e) => Err(e),
            Ok(()) => Ok(GlBufferRaw { buffer_id, el_count, component_count, gl_type_enum }),
        }
    }

    /// Record of a vertex-attribute buffer holding `data_len` elements of `ty`,
    /// uploaded under identifier `buffer_id`, after which the error flag read
    /// `flag`. Its element count is the number of vertices of
    /// `component_count` components that the data holds.
    pub fn new(
        ty: GlBufferElementType,
        data_len: usize,
        component_count: usize,
        buffer_id: u32,
        flag: u32,
    ) -> (r: Result<GlBufferRaw, GlError>)
        requires
            component_count > 0,
            ty.spec_components() * data_len <= usize::MAX,
        ensures
            same_outcome(
                r,
                upload_result(
                    flag,
                    buffer_id,
                    vertex_count_of(ty, data_len as nat, component_count as nat),
                    component_count as nat,
                    ty.spec_gl_type_enum(),
                ),
            ),
    {
        let el_count = ty.components_per_element() * data_len / component_count;
        Self::finish_upload(flag, buffer_id, el_count, component_count, ty.gl_type_enum())
    }

    /// Record of an index buffer holding `data_len` elements of `ty`: one
    /// element per datum, with the components of `ty`.
    pub fn new_index(ty: GlBufferElementType, data_len: usize, buffer_id: u32, flag: u32) -> (r:
        Result<GlBufferRaw, GlError>)
        ensures
            same_outcome(
                r,
                upload_result(
                    flag,
                    buffer_id,
                    data_len as nat,
                    ty.spec_components(),
                    ty.spec_gl_type_enum(),
                ),
            ),
    {
        Self::finish_upload(flag, buffer_id, data_len, ty.components_per_element(), ty.gl_type_enum())
    }

    /// Forgets the identifier once the backend has released the buffer.
    pub fn mark_released(&mut self)
        ensures
            final(self).buffer_id == 0,
            final(self).el_count == old(self).el_count,
            final(self).component_count == old(self).component_count,
            final(self).gl_type_enum == old(self).gl_type_enum,
    {
        self.buffer_id = 0;
    }
}

/// A vertex-attribute buffer whose element layout is `ty`.
#[derive(Debug)]
pub struct GlBuffer {
    pub raw: GlBufferRaw,
    pub ty: GlBufferElementType,
}

/// An element-index buffer whose element layout is `ty`; a distinct type so
/// that it cannot stand in a vertex-attribute slot.
#[derive(Debug)]
pub struct GlIndexBuffer {
    pub raw: GlBufferRaw,
    pub ty: GlBufferElementType,
}

impl GlBuffer {
    /// A vertex buffer with one vertex per element of `ty`.
    pub fn new(ty: GlBufferElementType, data_len: usize, buffer_id: u32, flag: u32) -> (r: Result<
        GlBuffer,
        GlError,
    >)
        requires
            ty.spec_components() * data_len <= usize::MAX,
        ensures
            match r {
                Ok(b) => flag == NO_ERROR && b.ty == ty && b.raw == (GlBufferRaw {
                    buffer_id,
                    el_count: data_len,
                    component_count: ty.spec_components() as usize,
                    gl_type_enum: ty.spec_gl_type_enum(),
                }),
                Err(e) => flag != NO_ERROR && e@ == flag_error(flag),
            },
    {
        let cpe = ty.components_per_element();
        proof {
            vstd::arithmetic::div_mod::lemma_div_by_multiple(data_len as int, cpe as int);
            vstd::arithmetic::mul::lemma_mul_is_commutative(data_len as int, cpe as int);
        }
        match GlBufferRaw::new(ty, data_len, cpe, buffer_id, flag) {
            Ok(raw) => Ok(GlBuffer { raw, ty }),
            Err(e) => Err(e),
        }
    }
}

impl GlIndexBuffer {
    pub fn new(ty: GlBufferElementType, data_len: usize, buffer_id: u32, flag: u32) -> (r: Result<
        GlIndexBuffer,
        GlError,
    >)
        ensures
            match r {
                Ok(b) => flag == NO_ERROR && b.ty == ty && b.raw == (GlBufferRaw {
                    buffer_id,
                    el_count: data_len,
                    component_count: ty.spec_components() as usize,
                    gl_type_enum: ty.spec_gl_type_enum(),
                }),
                Err(e) => flag != NO_ERROR && e@ == flag_error(flag),
            },
    {
        match GlBufferRaw::new_index(ty, data_len, buffer_id, flag) {
            Ok(raw) => Ok(GlIndexBuffer { raw, ty }),
            Err(e) => Err(e),
        }
    }
}

} // verus!
