//! Shaders: the stage kinds, and the decision that turns a compile status into
//! a shader or an error.
use vstd::prelude::*;
use vstd::string::StringSliceAdditionalSpecFns;

use crate::gl::context::{Context, GlCall};
use crate::gl::shader::{self as gl_shader, ShaderId, ShaderKind};
use crate::gl::sys::{self, RawHandle};
use crate::resources;

verus! {

/// Declares core's `str::Utf8Error` as an opaque type, only so that a shader
/// error can carry it; nothing is assumed of its contents.
#[verifier::external_type_specification]
#[verifier::external_body]
pub struct ExUtf8Error(core::str::Utf8Error);

/// Why a shader could not be made.
#[derive(Debug)]
pub enum Error {
    UnsupportedFileExtension(String),
    Resource(resources::Error),
    Utf8Encoding(core::str::Utf8Error),
    ShaderCompilation(String),
    ShaderTypeNotSupported(Kind),
}

/// The pipeline stage of a shader.
#[derive(Debug, Clone, Copy, PartialEq, Eq, Structural)]
pub enum Kind {
    Vertex,
    Fragment,
    Geometry,
    TessellationControl,
    TessellationEvaluation,
    Compute,
}

/// The two profiles of the graphics API: the desktop one has every stage,
/// the embedded one only vertex and fragment shaders.
#[derive(Debug, Clone, Copy, PartialEq, Eq, Structural)]
pub enum Profile {
    Desktop,
    Embedded,
}

/// Whether a profile offers a stage.
pub open spec fn available_in(kind: Kind, profile: Profile) -> bool {
    profile is Desktop || kind is Vertex || kind is Fragment
}

/// The raw shader-type enumerant of each stage.
pub open spec fn kind_raw(kind: Kind) -> u32 {
    match kind {
        Kind::Vertex => sys::VERTEX_SHADER,
        Kind::Fragment => sys::FRAGMENT_SHADER,
        Kind::Geometry => sys::GEOMETRY_SHADER,
        Kind::TessellationControl => sys::TESS_CONTROL_SHADER,
        Kind::TessellationEvaluation => sys::TESS_EVALUATION_SHADER,
        Kind::Compute => sys::COMPUTE_SHADER,
    }
}

/// Whether `s` ends with `suffix`.
pub open spec fn has_suffix(s: Seq<u8>, suffix: Seq<u8>) -> bool {
    s.len() >= suffix.len() && s.subrange(s.len() - suffix.len(), s.len() as int) == suffix
}

/// The bytes of ".vert".
pub open spec fn vertex_extension() -> Seq<u8> {
    seq![0x2Eu8, 0x76u8, 0x65u8, 0x72u8, 0x74u8]
}

/// The bytes of ".frag".
pub open spec fn fragment_extension() -> Seq<u8> {
    seq![0x2Eu8, 0x66u8, 0x72u8, 0x61u8, 0x67u8]
}

fn ends_with(s: &[u8], suffix: &Vec<u8>) -> (r: bool)
    ensures
        r == has_suffix(s@, suffix@),
{
    if s.len() < suffix.len() {
        return false;
    }
    let start = s.len() - suffix.len();
    let mut i: usize = 0;
    while i < suffix.len()
        invariant
            start + suffix@.len() == s@.len(),
            s@.len() <= usize::MAX,
            i <= suffix@.len(),
            forall|j: int| 0 <= j < i ==> s@[start + j] == suffix@[j],
        decreases suffix@.len() - i,
    {
        if s[start + i] != suffix[i] {
            assert(s@.subrange(start as int, s@.len() as int)[i as int] != suffix@[i as int]);
            return false;
        }
        i = i + 1;
    }
    assert(s@.subrange(start as int, s@.len() as int) =~= suffix@);
    true
}

impl Kind {
    /// The raw shader type of this stage.
    pub fn gl_type(&self) -> (r: ShaderKind)
        ensures
            r.raw() == kind_raw(*self),
    {
        match self {
            Kind::Vertex => gl_shader::vertex_shader(),
            Kind::Fragment => gl_shader::fragment_shader(),
            Kind::Geometry => gl_shader::geometry_shader(),
            Kind::TessellationControl => gl_shader::tessellation_control_shader(),
            Kind::TessellationEvaluation => gl_shader::tessellation_evaluation_shader(),
            Kind::Compute => gl_shader::compute_shader(),
        }
    }

    /// The raw shader type of this stage on a profile that offers it.
    pub fn gl_type_in(&self, profile: Profile) -> (r: Result<ShaderKind, Error>)
        ensures
            available_in(*self, profile) ==> r is Ok && r->Ok_0.raw() == kind_raw(*self),
            !available_in(*self, profile) ==> r is Err && r->Err_0 is ShaderTypeNotSupported
                && r->Err_0->ShaderTypeNotSupported_0 == *self,
    {
        match (profile, self) {
            (Profile::Embedded, Kind::Geometry)
            | (Profile::Embedded, Kind::TessellationControl)
            | (Profile::Embedded, Kind::TessellationEvaluation)
            | (Profile::Embedded, Kind::Compute) => Err(Error::ShaderTypeNotSupported(*self)),
            _ => Ok(self.gl_type()),
        }
    }

    /// The stage a shader file holds, told by its extension: ".vert" for a
    /// vertex shader, ".frag" for a fragment shader.
    pub fn from_file_name(name: &str) -> (r: Result<Kind, Error>)
        ensures
            has_suffix(name.spec_bytes(), vertex_extension()) ==> r == Ok::<Kind, Error>(Kind::Vertex),
            !has_suffix(name.spec_bytes(), vertex_extension()) && has_suffix(
                name.spec_bytes(),
                fragment_extension(),
            ) ==> r == Ok::<Kind, Error>(Kind::Fragment),
            !has_suffix(name.spec_bytes(), vertex_extension()) && !has_suffix(
                name.spec_bytes(),
                fragment_extension(),
            ) ==> r is Err && r->Err_0 is UnsupportedFileExtension
                && r->Err_0->UnsupportedFileExtension_0@ == name@,
    {
        let bytes = name.as_bytes();
        let vert: Vec<u8> = vec![0x2Eu8, 0x76u8, 0x65u8, 0x72u8, 0x74u8];
        let frag: Vec<u8> = vec![0x2Eu8, 0x66u8, 0x72u8, 0x61u8, 0x67u8];
        assert(vert@ =~= vertex_extension());
        assert(frag@ =~= fragment_extension());
        if ends_with(bytes, &vert) {
            Ok(Kind::Vertex)
        } else if ends_with(bytes, &frag) {
            Ok(Kind::Fragment)
        } else {
            Err(Error::UnsupportedFileExtension(name.to_owned()))
        }
    }
}

/// A compiled shader of a known stage.
pub struct Shader {
    id: ShaderId,
    kind: Kind,
}

/// The message of a failed compile or link: the driver's log when it has
/// one, "Unknown error" otherwise.
pub open spec fn failure_message(info_log: Option<String>) -> Seq<char> {
    match info_log {
        Some(log) => if log@.len() > 0 {
            log@
        } else {
            "Unknown error"@
        },
        None => "Unknown error"@,
    }
}

pub fn failure_text(info_log: Option<String>) -> (r: String)
    ensures
        r@ == failure_message(info_log),
        r@.len() > 0,
{
    proof {
        reveal_strlit("Unknown error");
    }
    match info_log {
        Some(log) => {
            if log.as_str().is_empty() {
                String::from_str("Unknown error")
            } else {
                log
            }
        },
        None => String::from_str("Unknown error"),
    }
}

impl Shader {
    /// The handle of the shader.
    pub closed spec fn handle(&self) -> ShaderId {
        self.id
    }

    /// The stage of the shader.
    pub closed spec fn stage(&self) -> Kind {
        self.kind
    }

    /// Hands `source` to the shader object `id` and compiles it; the outcome
    /// is read back from the context and given to `from_compile_status`.
    pub fn compile_source(ctx: &mut Context, id: ShaderId, source: &str)
        ensures
            final(ctx).log() == old(ctx).log() + seq![
                GlCall::ShaderSource { shader: id.raw(), source: old(ctx).texts().len() as usize },
                GlCall::CompileShader { shader: id.raw() },
            ],
            final(ctx).texts() == old(ctx).texts().push(source@),
            final(ctx).data() == old(ctx).data(),
    {
        gl_shader::shader_source(ctx, id, source);
        gl_shader::compile_shader(ctx, id);
        assert(ctx.log() =~= old(ctx).log() + seq![
            GlCall::ShaderSource { shader: id.raw(), source: old(ctx).texts().len() as usize },
            GlCall::CompileShader { shader: id.raw() },
        ]);
    }

    /// The shader that compiling into `id` produced, or, when the compile
    /// failed, a compilation error with a non-empty message; a failed shader
    /// object is deleted rather than leaked.
    pub fn from_compile_status(
        ctx: &mut Context,
        id: ShaderId,
        kind: Kind,
        compiled: bool,
        info_log: Option<String>,
    ) -> (r: Result<Shader, Error>)
        ensures
            compiled ==> r is Ok && r->Ok_0.handle() == id && r->Ok_0.stage() == kind
                && final(ctx).log() == old(ctx).log(),
            !compiled ==> r is Err && r->Err_0 is ShaderCompilation
                && r->Err_0->ShaderCompilation_0@ == failure_message(info_log)
                && r->Err_0->ShaderCompilation_0@.len() > 0,
            !compiled && id.raw() != 0 ==> final(ctx).log() == old(ctx).log().push(
                GlCall::DeleteShader { shader: id.raw() },
            ),
            !compiled && id.raw() == 0 ==> final(ctx).log() == old(ctx).log(),
            final(ctx).data() == old(ctx).data(),
            final(ctx).texts() == old(ctx).texts(),
    {
        if compiled {
            Ok(Shader { id, kind })
        } else {
            let mut failed = id;
            gl_shader::delete_shader(ctx, &mut failed);
            Err(Error::ShaderCompilation(failure_text(info_log)))
        }
    }

    pub fn id(&self) -> (r: ShaderId)
        ensures
            r == self.handle(),
    {
        self.id
    }

    pub fn kind(&self) -> (r: Kind)
        ensures
            r == self.stage(),
    {
        self.kind
    }

    /// Releases the shader object.
    pub fn delete(self, ctx: &mut Context)
        ensures
            self.handle().raw() != 0 ==> final(ctx).log() == old(ctx).log().push(
                GlCall::DeleteShader { shader: self.handle().raw() },
            ),
            self.handle().raw() == 0 ==> final(ctx).log() == old(ctx).log(),
            final(ctx).data() == old(ctx).data(),
            final(ctx).texts() == old(ctx).texts(),
    {
        let mut id = self.id;
        gl_shader::delete_shader(ctx, &mut id);
    }
}

} // verus!
