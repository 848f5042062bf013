//! Vertex array objects.
use vstd::prelude::*;

use crate::gl::context::{Context, GlCall};
use crate::gl::sys::{self, RawHandle};

verus! {

/// The name of a vertex array object; zero is the null sentinel.
#[derive(Debug, Clone, Copy, PartialEq, Eq, Structural)]
pub struct VertexArrayId(u32);

impl RawHandle<u32> for VertexArrayId {
    closed spec fn raw(&self) -> u32 {
        self.0
    }

    fn raw_handle(&self) -> (r: u32) {
        self.0
    }
}

/// The null vertex array: binding it unbinds the current one.
pub fn no_vertex_array() -> (r: VertexArrayId)
    ensures
        r.raw() == 0,
{
    VertexArrayId(0)
}

impl VertexArrayId {
    /// Wraps a vertex array name that the context generated.
    pub fn from_raw(raw: u32) -> (r: VertexArrayId)
        ensures
            r.raw() == raw,
    {
        VertexArrayId(raw)
    }
}

/// Makes a vertex array current; the null one unbinds.
pub fn bind_vertex_array(ctx: &mut Context, vertex_array_id: VertexArrayId)
    ensures
        final(ctx).log() == old(ctx).log().push(
            GlCall::BindVertexArray { vertex_array: vertex_array_id.raw() },
        ),
        final(ctx).data() == old(ctx).data(),
        final(ctx).texts() == old(ctx).texts(),
{
    ctx.record(GlCall::BindVertexArray { vertex_array: vertex_array_id.raw_handle() });
}

/// Wraps the vertex array names that the context generated, one handle per name.
pub fn gen_vertex_arrays(raw_names: &Vec<u32>) -> (r: Vec<VertexArrayId>)
    ensures
        r@.len() == raw_names@.len(),
        forall|i: int| 0 <= i < r@.len() ==> #[trigger] r@[i].raw() == raw_names@[i],
{
    let mut r: Vec<VertexArrayId> = Vec::new();
    let mut i: usize = 0;
    while i < raw_names.len()
        invariant
            i <= raw_names@.len(),
            r@.len() == i,
            forall|j: int| 0 <= j < i ==> #[trigger] r@[j].raw() == raw_names@[j],
        decreases raw_names@.len() - i,
    {
        r.push(VertexArrayId(raw_names[i]));
        i = i + 1;
    }
    r
}

/// Releases one vertex array and resets its handle to the null sentinel;
/// deleting the null vertex array records nothing.
pub fn delete_vertex_array(ctx: &mut Context, vertex_array_id: &mut VertexArrayId)
    ensures
        final(vertex_array_id).raw() == 0,
        old(vertex_array_id).raw() == 0 ==> final(ctx).log() == old(ctx).log(),
        old(vertex_array_id).raw() != 0 ==> final(ctx).log() == old(ctx).log().push(
            GlCall::DeleteVertexArray { vertex_array: old(vertex_array_id).raw() },
        ),
        final(ctx).data() == old(ctx).data(),
        final(ctx).texts() == old(ctx).texts(),
{
    if vertex_array_id.0 != 0 {
        ctx.record(GlCall::DeleteVertexArray { vertex_array: vertex_array_id.0 });
    }
    vertex_array_id.0 = 0;
}

} // verus!
