use vstd::prelude::*;
use crate::enums::{COLOR_ATTACHMENT0, DEPTH_ATTACHMENT, FRAMEBUFFER_COMPLETE, NO_ERROR};
use crate::error::{decimal, decimal_string, flag_error, validate_gl, GlError};

verus! {

/// An off-screen render target: its identifier, size, the identifiers of its
/// color textures, its depth surface and the draw-buffer list it was given.
#[derive(Debug)]
pub struct GlFramebuffer {
    pub handle: u32,
    pub textures: Vec<u32>,
    pub w: usize,
    pub h: usize,
    pub depth_handle: u32,
    pub draw_buffers: Vec<u32>,
}

/// Upper bound on color attachments, as the attachment enumerants must stay
/// below the depth attachment's.
pub const MAX_COLOR_ATTACHMENTS: usize = 32;

/// The attachment slot of the color texture at position `i`.
pub open spec fn color_attachment(i: int) -> u32 {
    (COLOR_ATTACHMENT0 + i) as u32
}

/// The draw-buffer list for `k` color textures: slots `0..k` in order.
pub open spec fn draw_buffer_list(k: nat) -> Seq<u32> {
    Seq::new(k, |i: int| color_attachment(i))
}

/// Attachment slots for `k` color textures, in order.
pub fn color_attachments(k: usize) -> (r: Vec<u32>)
    requires
        k <= MAX_COLOR_ATTACHMENTS,
    ensures
        r@ == draw_buffer_list(k as nat),
{
    let mut r: Vec<u32> = Vec::new();
    let mut i: usize = 0;
    while i < k
        invariant
            i <= k,
            k <= MAX_COLOR_ATTACHMENTS,
            r@ == draw_buffer_list(i as nat),
        decreases k - i,
    {
        r.push(COLOR_ATTACHMENT0 + i as u32);
        i = i + 1;
        assert(r@ =~= draw_buffer_list(i as nat));
    }
    r
}

/// The failure text for a framebuffer that the backend reports incomplete.
pub open spec fn incomplete_error(status: u32) -> Seq<char> {
    "Framebuffer status not complete: "@ + decimal(status as nat)
}

impl GlFramebuffer {
    pub open spec fn wf(&self) -> bool {
        &&& self.draw_buffers@ == draw_buffer_list(self.textures@.len())
        &&& self.textures@.len() <= MAX_COLOR_ATTACHMENTS
    }

    /// The framebuffer `handle` of size `w`×`h`, with depth surface
    /// `depth_handle` and color textures `textures` attached at slots
    /// `0..textures.len()`, once the error flag read `flag` and the
    /// completeness query answered `status`. It is returned only when the
    /// flag is clear and the status is complete.
    pub fn new_with_depth(
        w: usize,
        h: usize,
        textures: Vec<u32>,
        handle: u32,
        depth_handle: u32,
        flag: u32,
        status: u32,
    ) -> (r: Result<GlFramebuffer, GlError>)
        requires
            textures@.len() <= MAX_COLOR_ATTACHMENTS,
        ensures
            r is Ok <==> flag == NO_ERROR && status == FRAMEBUFFER_COMPLETE,
            r matches Ok(fb) ==> {
                &&& fb.wf()
                &&& fb.handle == handle
                &&& fb.textures@ == textures@
                &&& fb.w == w
                &&& fb.h == h
                &&& fb.depth_handle == depth_handle
                &&& fb.draw_buffers@ == draw_buffer_list(textures@.len())
            },
            r matches Err(e) ==> e@ == (if flag != NO_ERROR {
                flag_error(flag)
            } else {
                incomplete_error(status)
            }),
    {
        match validate_gl(flag) {
            Err(e) => Err(e),
            Ok(()) => {
                if status == FRAMEBUFFER_COMPLETE {
                    let draw_buffers = color_attachments(textures.len());
                    Ok(GlFramebuffer { handle, textures, w, h, depth_handle, draw_buffers })
                } else {
                    proof {
                        reveal_strlit("Framebuffer status not complete: ");
                    }
                    let msg = String::from_str("Framebuffer status not complete: ");
                    let code = decimal_string(status as u64);
                    Err(GlError::new(msg.concat(code.as_str())))
                }
            },
        }
    }
}

/// A framebuffer built with `k` color textures has exactly `k` draw buffers,
/// the color attachment slots `0..k` in order, so the last texture sits at
/// the highest slot; none of them is the depth attachment, which every
/// framebuffer carries besides.
pub proof fn lemma_draw_buffers(fb: &GlFramebuffer)
    requires
        fb.wf(),
    ensures
        fb.draw_buffers@.len() == fb.textures@.len(),
        forall|i: int| 0 <= i < fb.draw_buffers@.len() ==> #[trigger] fb.draw_buffers@[i] == COLOR_ATTACHMENT0 + i,
        fb.textures@.len() > 0 ==> fb.draw_buffers@.last() == COLOR_ATTACHMENT0 + fb.textures@.len() - 1,
        forall|i: int| 0 <= i < fb.draw_buffers@.len() ==> #[trigger] fb.draw_buffers@[i] < DEPTH_ATTACHMENT,
{
}

} // verus!
