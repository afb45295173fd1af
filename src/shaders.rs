use vstd::prelude::*;
use vstd::multiset::Multiset;
use crate::error::GlError;

verus! {

/// A value for a shader uniform. Floating-point components are held as
/// their IEEE-754 bit patterns, exactly as they are handed to the backend.
#[derive(Clone, Copy, Debug)]
pub enum GlShaderUniform {
    /// 4×4 matrix, row-major
    Mat4x4([u32; 16]),
    Int(i32),
    /// identifier of a texture, bound through a texture unit at render time
    TextureHandle(u32),
    Vec2([u32; 2]),
    Vec3([u32; 3]),
    Vec4([u32; 4]),
    Float(u32),
}

impl GlShaderUniform {
    pub open spec fn spec_name(self) -> Seq<char> {
        match self {
            GlShaderUniform::Mat4x4(_) => "Mat4x4"@,
            GlShaderUniform::Int(_) => "Int"@,
            GlShaderUniform::TextureHandle(_) => "TextureHandle"@,
            GlShaderUniform::Vec2(_) => "Vec2"@,
            GlShaderUniform::Vec3(_) => "Vec3"@,
            GlShaderUniform::Vec4(_) => "Vec4"@,
            GlShaderUniform::Float(_) => "Float"@,
        }
    }

    /// Name of the variant.
    pub fn kind_name(&self) -> (r: &'static str)
        ensures
            r@ == self.spec_name(),
    {
        match self {
            GlShaderUniform::Mat4x4(_) => "Mat4x4",
            GlShaderUniform::Int(_) => "Int",
            GlShaderUniform::TextureHandle(_) => "TextureHandle",
            GlShaderUniform::Vec2(_) => "Vec2",
            GlShaderUniform::Vec3(_) => "Vec3",
            GlShaderUniform::Vec4(_) => "Vec4",
            GlShaderUniform::Float(_) => "Float",
        }
    }
}

/// The one backend call that assigns a uniform at `location`.
#[derive(Clone, Copy, Debug)]
pub enum UniformCall {
    /// a 4×4 matrix uploaded transposed from row-major order
    Matrix4 { location: i32, matrix: [u32; 16] },
    Vector3 { location: i32, vector: [u32; 3] },
    Integer { location: i32, value: i32 },
}

/// A linked program.
#[derive(Debug)]
pub struct GlShader {
    pub program_handle: u32,
}

#[derive(Debug)]
pub struct UniformInfo {
    pub name: String,
    pub datatype: u32,
    pub size: i32,
}

#[derive(Debug)]
pub struct AttribInfo {
    pub name: String,
    pub datatype: u32,
    pub size: i32,
    pub location: i32,
}

#[derive(Debug)]
pub struct FragOutputInfo {
    pub name: String,
    pub datatype: u32,
    pub location: i32,
    pub index: u32,
}

/// The location the backend answers for a name that no active uniform has.
pub const UNKNOWN_LOCATION: i32 = -1;

pub open spec fn unknown_uniform_error(name: Seq<char>) -> Seq<char> {
    "Error getting uniform location: \""@ + name
        + "\", note that unused uniforms are stripped out"@
}

pub open spec fn texture_uniform_error() -> Seq<char> {
    "Can't set texture handle here. Needs renderer."@
}

pub open spec fn unimplemented_error(u: GlShaderUniform) -> Seq<char> {
    "unimplemented datatype "@ + u.spec_name()
}

/// What assigning `u` to the uniform found at `location` amounts to: the call
/// to make, or the failure text.
pub open spec fn uniform_command(name: Seq<char>, location: i32, u: GlShaderUniform) -> Result<
    UniformCall,
    Seq<char>,
> {
    if location == UNKNOWN_LOCATION {
        Err(unknown_uniform_error(name))
    } else {
        match u {
            GlShaderUniform::Mat4x4(data) => Ok(UniformCall::Matrix4 { location, matrix: data }),
            GlShaderUniform::Vec3(data) => Ok(UniformCall::Vector3 { location, vector: data }),
            GlShaderUniform::Int(value) => Ok(UniformCall::Integer { location, value }),
            GlShaderUniform::TextureHandle(_) => Err(texture_uniform_error()),
            _ => Err(unimplemented_error(u)),
        }
    }
}

/// Compile outcome of one shader stage `handle`: the stage when its compile
/// status is nonzero, else its info log as the failure.
pub fn stage_outcome(handle: u32, compile_status: i32, log: String) -> (r: Result<u32, GlError>)
    ensures
        r is Ok <==> compile_status != 0,
        r matches Ok(h) ==> h == handle,
        r matches Err(e) ==> e@ == log@,
{
    if compile_status == 0 {
        Err(GlError::new(log))
    } else {
        Ok(handle)
    }
}

impl GlShader {
    /// The program `program_id` once linked with status `link_status` and
    /// info log `log`. Any log text is a failure, even with a success status;
    /// a zero status is a failure too.
    pub fn link_outcome(program_id: u32, link_status: i32, log: String) -> (r: Result<
        GlShader,
        GlError,
    >)
        ensures
            r is Ok <==> log@.len() == 0 && link_status != 0,
            r matches Ok(s) ==> s.program_handle == program_id,
            r matches Err(e) ==> e@ == log@,
    {
        if log.as_str().is_empty() {
            if link_status == 0 {
                Err(GlError::new(log))
            } else {
                Ok(GlShader { program_handle: program_id })
            }
        } else {
            Err(GlError::new(log))
        }
    }

    /// The call that assigns `uniform` to the uniform `name`, which the
    /// backend found at `location` in this program. A name the program does
    /// not have, a texture handle (which needs a texture unit from the
    /// renderer) and the variants without an assignment call all fail.
    pub fn uniform_call(&self, name: &str, location: i32, uniform: &GlShaderUniform) -> (r: Result<
        UniformCall,
        GlError,
    >)
        ensures
            location == UNKNOWN_LOCATION ==> r is Err,
            match (r, uniform_command(name@, location, *uniform)) {
                (Ok(c), Ok(d)) => c == d,
                (Err(e), Err(m)) => e@ == m,
                _ => false,
            },
    {
        if location == UNKNOWN_LOCATION {
            proof {
                reveal_strlit("Error getting uniform location: \"");
                reveal_strlit("\", note that unused uniforms are stripped out");
            }
            let msg = String::from_str("Error getting uniform location: \"");
            let msg = msg.concat(name);
            let msg = msg.concat("\", note that unused uniforms are stripped out");
            return Err(GlError::new(msg));
        }
        match *uniform {
            GlShaderUniform::Mat4x4(data) => Ok(UniformCall::Matrix4 { location, matrix: data }),
            GlShaderUniform::Vec3(data) => Ok(UniformCall::Vector3 { location, vector: data }),
            GlShaderUniform::Int(value) => Ok(UniformCall::Integer { location, value }),
            GlShaderUniform::TextureHandle(_) => {
                proof {
                    reveal_strlit("Can't set texture handle here. Needs renderer.");
                }
                Err(GlError::new(String::from_str("Can't set texture handle here. Needs renderer.")))
            },
            _ => {
                proof {
                    reveal_strlit("unimplemented datatype ");
                }
                let msg = String::from_str("unimplemented datatype ");
                Err(GlError::new(msg.concat(uniform.kind_name())))
            },
        }
    }
}

/// Locations ascend along `s`.
pub open spec fn sorted_by_location(s: Seq<AttribInfo>) -> bool {
    forall|i: int, j: int| 0 <= i < j < s.len() ==> s[i].location <= s[j].location
}

/// Sorts attribute records ascending by bind location. The result holds exactly the given records.
pub fn sort_by_location(attribs: Vec<AttribInfo>) -> (r: Vec<AttribInfo>)
    ensures
        sorted_by_location(r@),
        r@.to_multiset() == attribs@.to_multiset(),
{
    let mut out: Vec<AttribInfo> = Vec::new();
    let mut rest = attribs;
    let ghost orig = rest@;
    // Consume the input from its back so each record moves without a copy.
    let mut taken: Vec<AttribInfo> = Vec::new();
    while rest.len() > 0
        invariant
            rest@ + taken@.reverse() == orig,
        decreases rest.len(),
    {
        let a = rest.pop().unwrap();
        taken.push(a);
        proof {
            assert(rest@ + taken@.reverse() =~= orig);
        }
    }
    proof {
        assert(taken@.reverse() =~= orig);
        taken@.lemma_reverse_to_multiset();
        out@.to_multiset_ensures();
        vstd::multiset::lemma_multiset_empty_len(out@.to_multiset());
        assert(out@.to_multiset() =~= Multiset::empty());
    }
    while taken.len() > 0
        invariant
            sorted_by_location(out@),
            out@.to_multiset().add(taken@.to_multiset()) == orig.to_multiset(),
        decreases taken.len(),
    {
        let ghost before = taken@;
        let a = taken.pop().unwrap();
        proof {
            assert(before =~= taken@.push(a));
            taken@.to_multiset_ensures();
        }
        let mut p: usize = out.len();
        while p > 0 && out[p - 1].location > a.location
            invariant
                p <= out.len(),
                sorted_by_location(out@),
                forall|j: int| p <= j < out.len() ==> out@[j].location > a.location,
            decreases p,
        {
            p = p - 1;
        }
        let ghost prev = out@;
        out.insert(p, a);
        proof {
            assert(out@.remove(p as int) =~= prev);
            out@.to_multiset_ensures();
            assert(out@[p as int] == a);
            assert(out@.to_multiset().remove(a) == prev.to_multiset());
            assert(out@.to_multiset().count(a) > 0);
            assert(out@.to_multiset() =~= prev.to_multiset().insert(a));
            assert forall|i: int, j: int| 0 <= i < j < out@.len() implies out@[i].location
                <= out@[j].location by {
                if j < p {
                } else if i < p && j == p {
                    assert(prev[i].location <= prev[p - 1].location);
                } else if i < p {
                    assert(out@[j] == prev[j - 1]);
                } else if i == p {
                    assert(out@[j] == prev[j - 1]);
                } else {
                    assert(out@[i] == prev[i - 1]);
                    assert(out@[j] == prev[j - 1]);
                }
            }
        }
    }
    proof {
        assert(taken@ =~= Seq::<AttribInfo>::empty());
        taken@.to_multiset_ensures();
        assert(out@.to_multiset() =~= out@.to_multiset().add(taken@.to_multiset()));
        orig.to_multiset_ensures();
    }
    out
}

impl FragOutputInfo {
    /// The record of a fragment output found at resource `index`; its type
    /// and location are not queried and read 0 and -1.
    pub fn new(name: String, index: u32) -> (r: FragOutputInfo)
        ensures
            r.name@ == name@,
            r.index == index,
            r.datatype == 0,
            r.location == -1,
    {
        FragOutputInfo { name, datatype: 0, location: -1, index }
    }
}

/// The bytes of a backend-filled text buffer before its first NUL (all of
/// them when there is none).
pub fn until_nul(buf: &Vec<u8>) -> (r: Vec<u8>)
    ensures
        r@.len() <= buf@.len(),
        r@ == buf@.take(r@.len() as int),
        forall|i: int| 0 <= i < r@.len() ==> r@[i] != 0u8,
        r@.len() < buf@.len() ==> buf@[r@.len() as int] == 0u8,
{
    let mut r: Vec<u8> = Vec::new();
    let mut i: usize = 0;
    while i < buf.len() && buf[i] != 0
        invariant
            i <= buf@.len(),
            r@ == buf@.take(i as int),
            forall|j: int| 0 <= j < i ==> buf@[j] != 0u8,
        decreases buf@.len() - i,
    {
        r.push(buf[i]);
        i = i + 1;
        assert(r@ =~= buf@.take(i as int));
    }
    r
}

} // verus!
