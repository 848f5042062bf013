//! Programs: linking a set of shaders, and the decision that turns a link
//! status into a program or an error.
use vstd::prelude::*;

use crate::gl::context::{Context, GlCall};
use crate::gl::program::{self as gl_program, ProgramId};
use crate::gl::sys::RawHandle;
use crate::shader::{failure_message, failure_text, Shader};

verus! {

/// Why a program could not be made.
#[derive(Debug)]
pub enum Error {
    ProgramLink(String),
}

/// A successfully linked program.
pub struct Program {
    id: ProgramId,
}

/// The calls that attach each shader to `program`, in order.
pub open spec fn attach_calls(program: u32, shaders: Seq<&Shader>) -> Seq<GlCall>
    decreases shaders.len(),
{
    if shaders.len() == 0 {
        Seq::empty()
    } else {
        attach_calls(program, shaders.drop_last()).push(
            GlCall::AttachShader { program, shader: shaders.last().handle().raw() },
        )
    }
}

/// The calls that detach each shader from `program`, in order.
pub open spec fn detach_calls(program: u32, shaders: Seq<&Shader>) -> Seq<GlCall>
    decreases shaders.len(),
{
    if shaders.len() == 0 {
        Seq::empty()
    } else {
        detach_calls(program, shaders.drop_last()).push(
            GlCall::DetachShader { program, shader: shaders.last().handle().raw() },
        )
    }
}

impl Program {
    /// The handle of the program.
    pub closed spec fn handle(&self) -> ProgramId {
        self.id
    }

    /// Attaches every shader to the program object `id`, links it, then
    /// detaches every shader again, so that the shaders stay owned by the
    /// caller whatever the outcome; the link status is read back from the
    /// context and given to `from_link_status`.
    pub fn link_shaders(ctx: &mut Context, id: ProgramId, shaders: &[&Shader])
        ensures
            final(ctx).log() == old(ctx).log() + attach_calls(id.raw(), shaders@) + seq![
                GlCall::LinkProgram { program: id.raw() },
            ] + detach_calls(id.raw(), shaders@),
            final(ctx).data() == old(ctx).data(),
            final(ctx).texts() == old(ctx).texts(),
    {
        let ghost log0 = ctx.log();
        let mut i: usize = 0;
        while i < shaders.len()
            invariant
                i <= shaders@.len(),
                ctx.log() == log0 + attach_calls(id.raw(), shaders@.subrange(0, i as int)),
                ctx.data() == old(ctx).data(),
                ctx.texts() == old(ctx).texts(),
            decreases shaders@.len() - i,
        {
            proof {
                assert(shaders@.subrange(0, i + 1).drop_last() =~= shaders@.subrange(0, i as int));
            }
            gl_program::attach_shader(ctx, id, shaders[i].id());
            i = i + 1;
        }
        assert(shaders@.subrange(0, i as int) =~= shaders@);
        gl_program::link_program(ctx, id);
        let ghost log1 = ctx.log();
        let mut k: usize = 0;
        while k < shaders.len()
            invariant
                k <= shaders@.len(),
                ctx.log() == log1 + detach_calls(id.raw(), shaders@.subrange(0, k as int)),
                ctx.data() == old(ctx).data(),
                ctx.texts() == old(ctx).texts(),
            decreases shaders@.len() - k,
        {
            proof {
                assert(shaders@.subrange(0, k + 1).drop_last() =~= shaders@.subrange(0, k as int));
            }
            gl_program::detach_shader(ctx, id, shaders[k].id());
            k = k + 1;
        }
        assert(shaders@.subrange(0, k as int) =~= shaders@);
        assert(ctx.log() =~= old(ctx).log() + attach_calls(id.raw(), shaders@) + seq![
            GlCall::LinkProgram { program: id.raw() },
        ] + detach_calls(id.raw(), shaders@));
    }

    /// The program that linking `id` produced, or, when the link failed, a
    /// link error with a non-empty message; a failed program object is
    /// deleted rather than leaked.
    pub fn from_link_status(ctx: &mut Context, id: ProgramId, linked: bool, info_log: Option<String>) -> (r:
        Result<Program, Error>)
        ensures
            linked ==> r is Ok && r->Ok_0.handle() == id && final(ctx).log() == old(ctx).log(),
            !linked ==> r is Err && r->Err_0 is ProgramLink && r->Err_0->ProgramLink_0@
                == failure_message(info_log) && r->Err_0->ProgramLink_0@.len() > 0,
            !linked && id.raw() != 0 ==> final(ctx).log() == old(ctx).log().push(
                GlCall::DeleteProgram { program: id.raw() },
            ),
            !linked && id.raw() == 0 ==> final(ctx).log() == old(ctx).log(),
            final(ctx).data() == old(ctx).data(),
            final(ctx).texts() == old(ctx).texts(),
    {
        if linked {
            Ok(Program { id })
        } else {
            let mut failed = id;
            gl_program::delete_program(ctx, &mut failed);
            Err(Error::ProgramLink(failure_text(info_log)))
        }
    }

    /// Makes this program current.
    pub fn set_used(&self, ctx: &mut Context)
        ensures
            final(ctx).log() == old(ctx).log().push(GlCall::UseProgram { program: self.handle().raw() }),
            final(ctx).data() == old(ctx).data(),
            final(ctx).texts() == old(ctx).texts(),
    {
        gl_program::use_program(ctx, self.id);
    }

    pub fn id(&self) -> (r: ProgramId)
        ensures
            r == self.handle(),
    {
        self.id
    }

    /// Releases the program object.
    pub fn delete(self, ctx: &mut Context)
        ensures
            self.handle().raw() != 0 ==> final(ctx).log() == old(ctx).log().push(
                GlCall::DeleteProgram { program: self.handle().raw() },
            ),
            self.handle().raw() == 0 ==> final(ctx).log() == old(ctx).log(),
            final(ctx).data() == old(ctx).data(),
            final(ctx).texts() == old(ctx).texts(),
    {
        let mut id = self.id;
        gl_program::delete_program(ctx, &mut id);
    }
}

} // verus!
