//! Shader objects and their compilation.
use vstd::prelude::*;

use crate::gl::context::{Context, GlCall};
use crate::gl::sys::{self, RawHandle};

verus! {

/// The pipeline stage a shader is compiled for.
#[derive(Debug, Clone, Copy, PartialEq, Eq, Structural)]
pub struct ShaderKind(u32);

impl RawHandle<u32> for ShaderKind {
    closed spec fn raw(&self) -> u32 {
        self.0
    }

    fn raw_handle(&self) -> (r: u32) {
        self.0
    }
}

pub fn vertex_shader() -> (r: ShaderKind)
    ensures
        r.raw() == sys::VERTEX_SHADER,
{
    ShaderKind(sys::VERTEX_SHADER)
}

pub fn fragment_shader() -> (r: ShaderKind)
    ensures
        r.raw() == sys::FRAGMENT_SHADER,
{
    ShaderKind(sys::FRAGMENT_SHADER)
}

pub fn geometry_shader() -> (r: ShaderKind)
    ensures
        r.raw() == sys::GEOMETRY_SHADER,
{
    ShaderKind(sys::GEOMETRY_SHADER)
}

pub fn tessellation_control_shader() -> (r: ShaderKind)
    ensures
        r.raw() == sys::TESS_CONTROL_SHADER,
{
    ShaderKind(sys::TESS_CONTROL_SHADER)
}

pub fn tessellation_evaluation_shader() -> (r: ShaderKind)
    ensures
        r.raw() == sys::TESS_EVALUATION_SHADER,
{
    ShaderKind(sys::TESS_EVALUATION_SHADER)
}

pub fn compute_shader() -> (r: ShaderKind)
    ensures
        r.raw() == sys::COMPUTE_SHADER,
{
    ShaderKind(sys::COMPUTE_SHADER)
}

/// The name of a shader object; zero is the null sentinel.
#[derive(Debug, Clone, Copy, PartialEq, Eq, Structural)]
pub struct ShaderId(u32);

impl RawHandle<u32> for ShaderId {
    closed spec fn raw(&self) -> u32 {
        self.0
    }

    fn raw_handle(&self) -> (r: u32) {
        self.0
    }
}

impl ShaderId {
    /// Wraps a shader name that the context created.
    pub fn from_raw(raw: u32) -> (r: ShaderId)
        ensures
            r.raw() == raw,
    {
        ShaderId(raw)
    }
}

/// Releases a shader and resets its handle to the null sentinel; deleting the
/// null shader records nothing.
pub fn delete_shader(ctx: &mut Context, shader_id: &mut ShaderId)
    ensures
        final(shader_id).raw() == 0,
        old(shader_id).raw() == 0 ==> final(ctx).log() == old(ctx).log(),
        old(shader_id).raw() != 0 ==> final(ctx).log() == old(ctx).log().push(
            GlCall::DeleteShader { shader: old(shader_id).raw() },
        ),
        final(ctx).data() == old(ctx).data(),
        final(ctx).texts() == old(ctx).texts(),
{
    if shader_id.0 != 0 {
        ctx.record(GlCall::DeleteShader { shader: shader_id.0 });
    }
    shader_id.0 = 0;
}

/// Replaces the source text of a shader.
pub fn shader_source(ctx: &mut Context, shader_id: ShaderId, source: &str)
    ensures
        final(ctx).log() == old(ctx).log().push(
            GlCall::ShaderSource { shader: shader_id.raw(), source: old(ctx).texts().len() as usize },
        ),
        final(ctx).texts() == old(ctx).texts().push(source@),
        final(ctx).data() == old(ctx).data(),
{
    let index = ctx.add_source(source.to_owned());
    ctx.record(GlCall::ShaderSource { shader: shader_id.0, source: index });
}

/// Compiles the source text of a shader.
pub fn compile_shader(ctx: &mut Context, shader_id: ShaderId)
    ensures
        final(ctx).log() == old(ctx).log().push(GlCall::CompileShader { shader: shader_id.raw() }),
        final(ctx).data() == old(ctx).data(),
        final(ctx).texts() == old(ctx).texts(),
{
    ctx.record(GlCall::CompileShader { shader: shader_id.0 });
}

} // verus!
