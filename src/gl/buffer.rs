//! Buffers: their handles, binding targets and usage hints.
use vstd::prelude::*;

use crate::gl::context::{Context, GlCall};
use crate::gl::sys::{self, RawHandle};

verus! {

/// The binding point a buffer is bound to.
#[derive(Debug, Clone, Copy, PartialEq, Eq, Structural)]
pub struct BufferTarget(u32);

/// How the contents of a buffer are expected to be used.
#[derive(Debug, Clone, Copy, PartialEq, Eq, Structural)]
pub struct BufferUsage(u32);

/// The name of a buffer object; zero is the null sentinel.
#[derive(Debug, Clone, Copy, PartialEq, Eq, Structural)]
pub struct BufferId(u32);

impl RawHandle<u32> for BufferTarget {
    closed spec fn raw(&self) -> u32 {
        self.0
    }

    fn raw_handle(&self) -> (r: u32) {
        self.0
    }
}

impl RawHandle<u32> for BufferUsage {
    closed spec fn raw(&self) -> u32 {
        self.0
    }

    fn raw_handle(&self) -> (r: u32) {
        self.0
    }
}

impl RawHandle<u32> for BufferId {
    closed spec fn raw(&self) -> u32 {
        self.0
    }

    fn raw_handle(&self) -> (r: u32) {
        self.0
    }
}

pub fn array_buffer() -> (r: BufferTarget)
    ensures
        r.raw() == sys::ARRAY_BUFFER,
{
    BufferTarget(sys::ARRAY_BUFFER)
}

pub fn element_array_buffer() -> (r: BufferTarget)
    ensures
        r.raw() == sys::ELEMENT_ARRAY_BUFFER,
{
    BufferTarget(sys::ELEMENT_ARRAY_BUFFER)
}

pub fn stream_draw() -> (r: BufferUsage)
    ensures
        r.raw() == sys::STREAM_DRAW,
{
    BufferUsage(sys::STREAM_DRAW)
}

pub fn static_draw() -> (r: BufferUsage)
    ensures
        r.raw() == sys::STATIC_DRAW,
{
    BufferUsage(sys::STATIC_DRAW)
}

pub fn stream_read() -> (r: BufferUsage)
    ensures
        r.raw() == sys::STREAM_READ,
{
    BufferUsage(sys::STREAM_READ)
}

pub fn static_read() -> (r: BufferUsage)
    ensures
        r.raw() == sys::STATIC_READ,
{
    BufferUsage(sys::STATIC_READ)
}

pub fn stream_copy() -> (r: BufferUsage)
    ensures
        r.raw() == sys::STREAM_COPY,
{
    BufferUsage(sys::STREAM_COPY)
}

pub fn static_copy() -> (r: BufferUsage)
    ensures
        r.raw() == sys::STATIC_COPY,
{
    BufferUsage(sys::STATIC_COPY)
}

/// The null buffer: binding it unbinds the target.
pub fn no_buffer() -> (r: BufferId)
    ensures
        r.raw() == 0,
{
    BufferId(0)
}

impl BufferId {
    /// Wraps a buffer name that the context generated.
    pub fn from_raw(raw: u32) -> (r: BufferId)
        ensures
            r.raw() == raw,
    {
        BufferId(raw)
    }
}

/// The deletion calls for the live (non-null) buffers among `ids`, in order.
pub open spec fn delete_buffer_calls(ids: Seq<BufferId>) -> Seq<GlCall>
    decreases ids.len(),
{
    if ids.len() == 0 {
        Seq::empty()
    } else if ids.last().raw() == 0 {
        delete_buffer_calls(ids.drop_last())
    } else {
        delete_buffer_calls(ids.drop_last()).push(GlCall::DeleteBuffer { buffer: ids.last().raw() })
    }
}

/// Wraps the buffer names that the context generated, one handle per name.
pub fn gen_buffers(raw_names: &Vec<u32>) -> (r: Vec<BufferId>)
    ensures
        r@.len() == raw_names@.len(),
        forall|i: int| 0 <= i < r@.len() ==> #[trigger] r@[i].raw() == raw_names@[i],
{
    let mut r: Vec<BufferId> = Vec::new();
    let mut i: usize = 0;
    while i < raw_names.len()
        invariant
            i <= raw_names@.len(),
            r@.len() == i,
            forall|j: int| 0 <= j < i ==> #[trigger] r@[j].raw() == raw_names@[j],
        decreases raw_names@.len() - i,
    {
        r.push(BufferId(raw_names[i]));
        i = i + 1;
    }
    r
}

pub fn bind_buffer(ctx: &mut Context, target: BufferTarget, buffer_id: BufferId)
    ensures
        final(ctx).log() == old(ctx).log().push(
            GlCall::BindBuffer { target: target.raw(), buffer: buffer_id.raw() },
        ),
        final(ctx).data() == old(ctx).data(),
        final(ctx).texts() == old(ctx).texts(),
{
    ctx.record(GlCall::BindBuffer { target: target.0, buffer: buffer_id.0 });
}

/// Replaces the whole contents of the buffer bound to `target` with `data`.
pub fn buffer_data(ctx: &mut Context, target: BufferTarget, data: Vec<u8>, usage: BufferUsage)
    ensures
        final(ctx).log() == old(ctx).log().push(
            GlCall::BufferData {
                target: target.raw(),
                payload: old(ctx).data().len() as usize,
                usage: usage.raw(),
            },
        ),
        final(ctx).data() == old(ctx).data().push(data@),
        final(ctx).texts() == old(ctx).texts(),
{
    let payload = ctx.add_payload(data);
    ctx.record(GlCall::BufferData { target: target.0, payload, usage: usage.0 });
}

/// Releases every live buffer in `buffer_ids` and resets each handle to the
/// null sentinel; null handles are left alone, so deleting twice is harmless.
pub fn delete_buffers(ctx: &mut Context, buffer_ids: &mut Vec<BufferId>)
    ensures
        final(ctx).log() == old(ctx).log() + delete_buffer_calls(old(buffer_ids)@),
        final(ctx).data() == old(ctx).data(),
        final(ctx).texts() == old(ctx).texts(),
        final(buffer_ids)@.len() == old(buffer_ids)@.len(),
        forall|i: int| 0 <= i < final(buffer_ids)@.len() ==> #[trigger] final(buffer_ids)@[i].raw() == 0,
{
    let ghost ids0 = buffer_ids@;
    let ghost log0 = ctx.log();
    let mut i: usize = 0;
    while i < buffer_ids.len()
        invariant
            i <= buffer_ids@.len(),
            buffer_ids@.len() == ids0.len(),
            forall|j: int| 0 <= j < i ==> #[trigger] buffer_ids@[j].raw() == 0,
            forall|j: int| i <= j < ids0.len() ==> #[trigger] buffer_ids@[j] == ids0[j],
            ctx.log() == log0 + delete_buffer_calls(ids0.subrange(0, i as int)),
            ctx.data() == old(ctx).data(),
            ctx.texts() == old(ctx).texts(),
        decreases ids0.len() - i,
    {
        proof {
            assert(ids0.subrange(0, i + 1).drop_last() =~= ids0.subrange(0, i as int));
        }
        let id = buffer_ids[i];
        if id.0 != 0 {
            ctx.record(GlCall::DeleteBuffer { buffer: id.0 });
            assert(ctx.log() =~= log0 + delete_buffer_calls(ids0.subrange(0, i + 1)));
        }
        buffer_ids.set(i, BufferId(0));
        i = i + 1;
    }
    assert(ids0.subrange(0, i as int) =~= ids0);
}

/// Releases one buffer and resets its handle to the null sentinel; deleting
/// the null buffer records nothing.
pub fn delete_buffer(ctx: &mut Context, buffer_id: &mut BufferId)
    ensures
        final(buffer_id).raw() == 0,
        old(buffer_id).raw() == 0 ==> final(ctx).log() == old(ctx).log(),
        old(buffer_id).raw() != 0 ==> final(ctx).log() == old(ctx).log().push(
            GlCall::DeleteBuffer { buffer: old(buffer_id).raw() },
        ),
        final(ctx).data() == old(ctx).data(),
        final(ctx).texts() == old(ctx).texts(),
{
    if buffer_id.0 != 0 {
        ctx.record(GlCall::DeleteBuffer { buffer: buffer_id.0 });
    }
    buffer_id.0 = 0;
}

/// Deleting buffers that are already null records no call: once
/// `delete_buffers` has reset a list of handles, deleting it again is a no-op.
pub proof fn lemma_delete_buffers_twice(ids: Seq<BufferId>)
    requires
        forall|i: int| 0 <= i < ids.len() ==> #[trigger] ids[i].raw() == 0,
    ensures
        delete_buffer_calls(ids) == Seq::<GlCall>::empty(),
    decreases ids.len(),
{
    if ids.len() > 0 {
        lemma_delete_buffers_twice(ids.drop_last());
    }
}

} // verus!
