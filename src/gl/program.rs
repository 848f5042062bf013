//! Program objects, linking and uniforms.
use vstd::prelude::*;

use crate::gl::context::{Context, GlCall};
use crate::gl::shader::ShaderId;
use crate::gl::sys::RawHandle;

verus! {

/// The name of a program object; zero is the null sentinel.
#[derive(Debug, Clone, Copy, PartialEq, Eq, Structural)]
pub struct ProgramId(u32);

impl RawHandle<u32> for ProgramId {
    closed spec fn raw(&self) -> u32 {
        self.0
    }

    fn raw_handle(&self) -> (r: u32) {
        self.0
    }
}

/// The null program: using it leaves no program current.
pub fn no_program() -> (r: ProgramId)
    ensures
        r.raw() == 0,
{
    ProgramId(0)
}

impl ProgramId {
    /// Wraps a program name that the context created.
    pub fn from_raw(raw: u32) -> (r: ProgramId)
        ensures
            r.raw() == raw,
    {
        ProgramId(raw)
    }
}

/// The location of a uniform variable in a linked program.
#[derive(Debug, Clone, Copy, PartialEq, Eq, Structural)]
pub struct UniformLocation(i32);

impl RawHandle<i32> for UniformLocation {
    closed spec fn raw(&self) -> i32 {
        self.0
    }

    fn raw_handle(&self) -> (r: i32) {
        self.0
    }
}

impl UniformLocation {
    /// Wraps a location that the context reported.
    pub fn from_raw(raw: i32) -> (r: UniformLocation)
        ensures
            r.raw() == raw,
    {
        UniformLocation(raw)
    }
}

/// Releases a program and resets its handle to the null sentinel; deleting
/// the null program records nothing.
pub fn delete_program(ctx: &mut Context, program_id: &mut ProgramId)
    ensures
        final(program_id).raw() == 0,
        old(program_id).raw() == 0 ==> final(ctx).log() == old(ctx).log(),
        old(program_id).raw() != 0 ==> final(ctx).log() == old(ctx).log().push(
            GlCall::DeleteProgram { program: old(program_id).raw() },
        ),
        final(ctx).data() == old(ctx).data(),
        final(ctx).texts() == old(ctx).texts(),
{
    if program_id.0 != 0 {
        ctx.record(GlCall::DeleteProgram { program: program_id.0 });
    }
    program_id.0 = 0;
}

/// Attaches a shader to a program.
pub fn attach_shader(ctx: &mut Context, program_id: ProgramId, shader_id: ShaderId)
    ensures
        final(ctx).log() == old(ctx).log().push(
            GlCall::AttachShader { program: program_id.raw(), shader: shader_id.raw() },
        ),
        final(ctx).data() == old(ctx).data(),
        final(ctx).texts() == old(ctx).texts(),
{
    ctx.record(GlCall::AttachShader { program: program_id.raw_handle(), shader: shader_id.raw_handle() });
}

/// Detaches a shader from a program.
pub fn detach_shader(ctx: &mut Context, program_id: ProgramId, shader_id: ShaderId)
    ensures
        final(ctx).log() == old(ctx).log().push(
            GlCall::DetachShader { program: program_id.raw(), shader: shader_id.raw() },
        ),
        final(ctx).data() == old(ctx).data(),
        final(ctx).texts() == old(ctx).texts(),
{
    ctx.record(GlCall::DetachShader { program: program_id.raw_handle(), shader: shader_id.raw_handle() });
}

/// Links the shaders attached to a program.
pub fn link_program(ctx: &mut Context, program_id: ProgramId)
    ensures
        final(ctx).log() == old(ctx).log().push(GlCall::LinkProgram { program: program_id.raw() }),
        final(ctx).data() == old(ctx).data(),
        final(ctx).texts() == old(ctx).texts(),
{
    ctx.record(GlCall::LinkProgram { program: program_id.raw_handle() });
}

/// Makes a program current; the null program leaves none current.
pub fn use_program(ctx: &mut Context, program_id: ProgramId)
    ensures
        final(ctx).log() == old(ctx).log().push(GlCall::UseProgram { program: program_id.raw() }),
        final(ctx).data() == old(ctx).data(),
        final(ctx).texts() == old(ctx).texts(),
{
    ctx.record(GlCall::UseProgram { program: program_id.raw_handle() });
}

/// A single-precision float given by its IEEE 754 bit pattern.
#[derive(Debug, Clone, Copy, PartialEq, Eq, Structural)]
pub struct FloatBits(pub u32);

/// A value that can be uploaded to a scalar uniform.
pub trait UniformValue {
    /// The call that uploads this value to `location`.
    spec fn upload_call(&self, location: i32) -> GlCall;

    fn upload(&self, ctx: &mut Context, uniform_location: UniformLocation)
        ensures
            final(ctx).log() == old(ctx).log().push(self.upload_call(uniform_location.raw())),
            final(ctx).data() == old(ctx).data(),
            final(ctx).texts() == old(ctx).texts(),
    ;
}

impl UniformValue for i32 {
    open spec fn upload_call(&self, location: i32) -> GlCall {
        GlCall::Uniform1i { location, value: *self }
    }

    fn upload(&self, ctx: &mut Context, uniform_location: UniformLocation) {
        ctx.record(GlCall::Uniform1i { location: uniform_location.raw_handle(), value: *self });
    }
}

impl UniformValue for FloatBits {
    open spec fn upload_call(&self, location: i32) -> GlCall {
        GlCall::Uniform1f { location, bits: self.0 }
    }

    fn upload(&self, ctx: &mut Context, uniform_location: UniformLocation) {
        ctx.record(GlCall::Uniform1f { location: uniform_location.raw_handle(), bits: self.0 });
    }
}

/// Uploads a scalar to a uniform of the current program.
pub fn uniform<T: UniformValue>(ctx: &mut Context, uniform_location: UniformLocation, uniform_value: T)
    ensures
        final(ctx).log() == old(ctx).log().push(uniform_value.upload_call(uniform_location.raw())),
        final(ctx).data() == old(ctx).data(),
        final(ctx).texts() == old(ctx).texts(),
{
    uniform_value.upload(ctx, uniform_location);
}

/// A 4x4 matrix that can be uploaded to a matrix uniform.
pub trait UniformMatrix4Value {
    /// The bytes handed to the context: sixteen floats, four native-endian bytes each.
    spec fn matrix_bytes(&self) -> Seq<u8>;

    fn upload(&self, ctx: &mut Context, transposed: bool, uniform_location: UniformLocation)
        ensures
            final(ctx).log() == old(ctx).log().push(
                GlCall::UniformMatrix4 {
                    location: uniform_location.raw(),
                    transposed,
                    payload: old(ctx).data().len() as usize,
                },
            ),
            final(ctx).data() == old(ctx).data().push(self.matrix_bytes()),
            final(ctx).texts() == old(ctx).texts(),
    ;
}

impl UniformMatrix4Value for Vec<u8> {
    open spec fn matrix_bytes(&self) -> Seq<u8> {
        self@
    }

    fn upload(&self, ctx: &mut Context, transposed: bool, uniform_location: UniformLocation) {
        let payload = ctx.add_payload(self.clone());
        ctx.record(
            GlCall::UniformMatrix4 { location: uniform_location.raw_handle(), transposed, payload },
        );
    }
}

/// Uploads a 4x4 matrix to a uniform of the current program.
pub fn uniform_matrix4<T: UniformMatrix4Value>(
    ctx: &mut Context,
    uniform_location: UniformLocation,
    transposed: bool,
    uniform_value: T,
)
    ensures
        final(ctx).log() == old(ctx).log().push(
            GlCall::UniformMatrix4 {
                location: uniform_location.raw(),
                transposed,
                payload: old(ctx).data().len() as usize,
            },
        ),
        final(ctx).data() == old(ctx).data().push(uniform_value.matrix_bytes()),
        final(ctx).texts() == old(ctx).texts(),
{
    uniform_value.upload(ctx, transposed, uniform_location);
}

} // verus!
