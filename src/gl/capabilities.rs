//! Server-side capabilities that can be switched on and off.
use vstd::prelude::*;

use crate::gl::context::{Context, GlCall};
use crate::gl::sys::{self, RawHandle};

verus! {

/// A capability of the context that `enable` and `disable` switch.
#[derive(Debug, Clone, Copy, PartialEq, Eq, Structural)]
pub struct Capability(u32);

impl RawHandle<u32> for Capability {
    closed spec fn raw(&self) -> u32 {
        self.0
    }

    fn raw_handle(&self) -> (r: u32) {
        self.0
    }
}

pub fn blend() -> (r: Capability)
    ensures
        r.raw() == sys::BLEND,
{
    Capability(sys::BLEND)
}

pub fn cull_face() -> (r: Capability)
    ensures
        r.raw() == sys::CULL_FACE,
{
    Capability(sys::CULL_FACE)
}

pub fn depth_test() -> (r: Capability)
    ensures
        r.raw() == sys::DEPTH_TEST,
{
    Capability(sys::DEPTH_TEST)
}

pub fn stencil_test() -> (r: Capability)
    ensures
        r.raw() == sys::STENCIL_TEST,
{
    Capability(sys::STENCIL_TEST)
}

pub fn scissor_test() -> (r: Capability)
    ensures
        r.raw() == sys::SCISSOR_TEST,
{
    Capability(sys::SCISSOR_TEST)
}

/// Switches a capability on.
pub fn enable(ctx: &mut Context, capability: Capability)
    ensures
        final(ctx).log() == old(ctx).log().push(GlCall::Enable { capability: capability.raw() }),
        final(ctx).data() == old(ctx).data(),
        final(ctx).texts() == old(ctx).texts(),
{
    ctx.record(GlCall::Enable { capability: capability.raw_handle() });
}

/// Switches a capability off.
pub fn disable(ctx: &mut Context, capability: Capability)
    ensures
        final(ctx).log() == old(ctx).log().push(GlCall::Disable { capability: capability.raw() }),
        final(ctx).data() == old(ctx).data(),
        final(ctx).texts() == old(ctx).texts(),
{
    ctx.record(GlCall::Disable { capability: capability.raw_handle() });
}

} // verus!
