use vstd::prelude::*;
use crate::enums::{
    FLOAT, LINEAR, LINEAR_MIPMAP_LINEAR, NEAREST, NO_ERROR, RED, RGBA, RGBA8, UNSIGNED_BYTE,
};
use crate::error::{decimal, decimal_string, flag_error, validate_gl, GlError};

verus! {

/// A 2D image owned by the backend.
#[derive(Clone, Copy, Debug, PartialEq, Eq, Structural)]
pub struct GlTexture {
    pub handle: u32,
}

/// The parameters of the image allocation of a texture and of its initial
/// magnification and minification filter.
#[derive(Clone, Copy, Debug, PartialEq, Eq, Structural)]
pub struct TextureUpload {
    pub width: i32,
    pub height: i32,
    pub internal_format: u32,
    pub format: u32,
    pub texel_type: u32,
    pub filter: u32,
}

pub open spec fn upload_of(
    width: usize,
    height: usize,
    internal_format: u32,
    format: u32,
    texel_type: u32,
    filter: u32,
) -> TextureUpload {
    TextureUpload {
        width: width as i32,
        height: height as i32,
        internal_format,
        format,
        texel_type,
        filter,
    }
}

pub open spec fn short_pixels_error(have: nat, want: nat) -> Seq<char> {
    "pixel data holds "@ + decimal(have) + " bytes, the image needs "@ + decimal(want)
}

impl GlTexture {
    /// Uninitialized 8-bit RGBA storage, sampled nearest-neighbor.
    pub fn rgba8_empty_upload(width: usize, height: usize) -> (r: TextureUpload)
        requires
            width <= i32::MAX,
            height <= i32::MAX,
        ensures
            r == upload_of(width, height, RGBA, RGBA, UNSIGNED_BYTE, NEAREST),
    {
        TextureUpload {
            width: width as i32,
            height: height as i32,
            internal_format: RGBA,
            format: RGBA,
            texel_type: UNSIGNED_BYTE,
            filter: NEAREST,
        }
    }

    /// Uninitialized single-channel float storage, sampled nearest-neighbor.
    pub fn f32_empty_upload(width: usize, height: usize) -> (r: TextureUpload)
        requires
            width <= i32::MAX,
            height <= i32::MAX,
        ensures
            r == upload_of(width, height, RED, RED, FLOAT, NEAREST),
    {
        TextureUpload {
            width: width as i32,
            height: height as i32,
            internal_format: RED,
            format: RED,
            texel_type: FLOAT,
            filter: NEAREST,
        }
    }

    /// 8-bit RGBA storage initialized from `data_len` bytes of pixels,
    /// sampled linearly. Fails when the bytes do not cover the image.
    pub fn rgba8_upload(width: usize, height: usize, data_len: usize) -> (r: Result<
        TextureUpload,
        GlError,
    >)
        requires
            width <= i32::MAX,
            height <= i32::MAX,
        ensures
            r is Ok <==> data_len >= 4 * width * height,
            r matches Ok(u) ==> u == upload_of(width, height, RGBA8, RGBA, UNSIGNED_BYTE, LINEAR),
            r matches Err(e) ==> e@ == short_pixels_error(data_len as nat, (4 * width * height) as nat),
    {
        let w = width as u64;
        let h = height as u64;
        assert(w * h <= 0x7fff_ffffu64 * 0x7fff_ffffu64) by (nonlinear_arith)
            requires
                w <= 0x7fff_ffffu64,
                h <= 0x7fff_ffffu64,
        ;
        let need: u64 = 4 * (w * h);
        assert(need as int == 4 * width * height) by (nonlinear_arith)
            requires
                need as int == 4 * (w * h),
                w == width,
                h == height,
        ;
        if (data_len as u64) < need {
            proof {
                reveal_strlit("pixel data holds ");
                reveal_strlit(" bytes, the image needs ");
            }
            let msg = String::from_str("pixel data holds ");
            let msg = msg.concat(decimal_string(data_len as u64).as_str());
            let msg = msg.concat(" bytes, the image needs ");
            let msg = msg.concat(decimal_string(need).as_str());
            Err(GlError::new(msg))
        } else {
            Ok(
                TextureUpload {
                    width: width as i32,
                    height: height as i32,
                    internal_format: RGBA8,
                    format: RGBA,
                    texel_type: UNSIGNED_BYTE,
                    filter: LINEAR,
                },
            )
        }
    }

    /// The texture `handle` once its allocation left the error flag `flag`.
    pub fn from_upload(handle: u32, flag: u32) -> (r: Result<GlTexture, GlError>)
        ensures
            r is Ok <==> flag == NO_ERROR,
            r matches Ok(t) ==> t.handle == handle,
            r matches Err(e) ==> e@ == flag_error(flag),
    {
        match validate_gl(flag) {
            Err(e) => Err(e),
            Ok(()) => Ok(GlTexture { handle }),
        }
    }

    /// Minification filter once mip levels are generated.
    pub fn mipmap_filter() -> (r: u32)
        ensures
            r == LINEAR_MIPMAP_LINEAR,
    {
        LINEAR_MIPMAP_LINEAR
    }

    /// Forgets the identifier once the backend has released the image.
    pub fn mark_released(&mut self)
        ensures
            final(self).handle == 0,
    {
        self.handle = 0;
    }
}

} // verus!
