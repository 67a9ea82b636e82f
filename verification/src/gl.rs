//! What can be said about graphics objects without talking to the graphics
//! API: the names of the shader stages, the text of an info log, and the
//! uniform table of a linked program.

use vstd::prelude::*;
use vstd::slice::slice_subrange;
use vstd::string::StringExecFns;

verus! {

/// The shader stages, by the numbers that the graphics API gives them.
pub const VERTEX_SHADER: u32 = 0x8B31;

pub const FRAGMENT_SHADER: u32 = 0x8B30;

pub const COMPUTE_SHADER: u32 = 0x91B9;

pub const GEOMETRY_SHADER: u32 = 0x8DD9;

pub const TESS_CONTROL_SHADER: u32 = 0x8E88;

pub const TESS_EVALUATION_SHADER: u32 = 0x8E87;

/// The character for the digit `d`.
pub open spec fn digit(d: nat) -> char
    recommends
        d < 10,
{
    ('0' as u8 + d) as char
}

/// `n` written in decimal, without leading zeros.
pub open spec fn decimal(n: nat) -> Seq<char>
    decreases n,
{
    if n < 10 {
        seq![digit(n)]
    } else {
        decimal(n / 10).push(digit(n % 10))
    }
}

/// The name of the shader stage with number `ty`, as it is spelled in
/// diagnostics.
pub open spec fn shader_type_name(ty: u32) -> Seq<char> {
    if ty == VERTEX_SHADER {
        "vertex"@
    } else if ty == FRAGMENT_SHADER {
        "fragment"@
    } else if ty == COMPUTE_SHADER {
        "compute"@
    } else if ty == GEOMETRY_SHADER {
        "geometry"@
    } else if ty == TESS_CONTROL_SHADER {
        "tesselation control"@
    } else if ty == TESS_EVALUATION_SHADER {
        "tesselation evalution"@
    } else {
        "unknown ("@ + decimal(ty as nat) + ")"@
    }
}

/// The text that stands for a sequence of bytes read as UTF-8, each
/// ill-formed part replaced by the replacement character.
pub uninterp spec fn utf8_lossy(bytes: Seq<u8>) -> Seq<char>;

/// `u32::to_string`: `x` written in decimal, without sign or leading zeros.
#[verifier::external_body]
fn decimal_string(x: u32) -> (s: String)
    ensures
        s@ == decimal(x as nat),
{
    x.to_string()
}

/// `String::from_utf8_lossy`, its result as an owned string: the text that
/// `bytes` stand for. The same bytes always give the same text.
#[verifier::external_body]
fn from_utf8_lossy(bytes: &[u8]) -> (s: String)
    ensures
        s@ == utf8_lossy(bytes@),
{
    String::from_utf8_lossy(bytes).into_owned()
}

/// Names the shader stage with number `ty`.
pub fn shader_type_str(ty: u32) -> (s: String)
    ensures
        s@ == shader_type_name(ty),
{
    if ty == VERTEX_SHADER {
        "vertex".to_owned()
    } else if ty == FRAGMENT_SHADER {
        "fragment".to_owned()
    } else if ty == COMPUTE_SHADER {
        "compute".to_owned()
    } else if ty == GEOMETRY_SHADER {
        "geometry".to_owned()
    } else if ty == TESS_CONTROL_SHADER {
        "tesselation control".to_owned()
    } else if ty == TESS_EVALUATION_SHADER {
        "tesselation evalution".to_owned()
    } else {
        let number = decimal_string(ty);
        let mut s = String::from_str("unknown (");
        s.append(number.as_str());
        s.append(")");
        s
    }
}

/// The text of an info log: of the buffer `buf`, the first `len` bytes, or
/// all of it if it is shorter.
pub fn info_log_to_string(buf: &[u8], len: i32) -> (s: String)
    requires
        len >= 0,
    ensures
        s@ == utf8_lossy(buf@.take(if len <= buf@.len() { len as int } else { buf@.len() as int })),
{
    let trim: usize = if (len as usize) < buf.len() {
        len as usize
    } else {
        buf.len()
    };
    from_utf8_lossy(slice_subrange(buf, 0, trim))
}

/// A linked shader program: its name in the graphics API, and the location
/// of each of its uniforms, in the order in which they were asked for.
pub struct Program {
    id: u32,
    uniforms: Vec<i32>,
}

impl Program {
    /// The name of the program.
    pub closed spec fn spec_id(&self) -> u32 {
        self.id
    }

    /// The locations of the uniforms.
    pub closed spec fn spec_uniforms(&self) -> Seq<i32> {
        self.uniforms@
    }

    /// The program with name `id` and uniform locations `uniforms`.
    pub fn new(id: u32, uniforms: Vec<i32>) -> (program: Self)
        ensures
            program.spec_id() == id,
            program.spec_uniforms() == uniforms@,
    {
        Self { id, uniforms }
    }

    /// The name of the program.
    pub fn id(&self) -> (id: u32)
        ensures
            id == self.spec_id(),
    {
        self.id
    }

    /// The location of the uniform that was asked for as the `idx`-th, if
    /// that many were asked for.
    pub fn uniform_location(&self, idx: usize) -> (location: Option<i32>)
        ensures
            location == if idx < self.spec_uniforms().len() {
                Some(self.spec_uniforms()[idx as int])
            } else {
                None
            },
    {
        if idx < self.uniforms.len() {
            Some(self.uniforms[idx])
        } else {
            None
        }
    }
}

} // verus!
