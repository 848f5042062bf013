//! Layout of vertex attributes.
use vstd::prelude::*;

use crate::gl::context::{Context, GlCall};
use crate::gl::sys::{self, RawHandle};

verus! {

/// The number of components of one vertex attribute.
#[derive(Debug, Clone, Copy, PartialEq, Eq, Structural)]
pub struct ComponentSize(i32);

impl RawHandle<i32> for ComponentSize {
    closed spec fn raw(&self) -> i32 {
        self.0
    }

    fn raw_handle(&self) -> (r: i32) {
        self.0
    }
}

/// The type of each component of a vertex attribute.
#[derive(Debug, Clone, Copy, PartialEq, Eq, Structural)]
pub struct ComponentType(u32);

impl RawHandle<u32> for ComponentType {
    closed spec fn raw(&self) -> u32 {
        self.0
    }

    fn raw_handle(&self) -> (r: u32) {
        self.0
    }
}

pub fn size_1() -> (r: ComponentSize)
    ensures
        r.raw() == 1,
{
    ComponentSize(1)
}

pub fn size_2() -> (r: ComponentSize)
    ensures
        r.raw() == 2,
{
    ComponentSize(2)
}

pub fn size_3() -> (r: ComponentSize)
    ensures
        r.raw() == 3,
{
    ComponentSize(3)
}

pub fn size_4() -> (r: ComponentSize)
    ensures
        r.raw() == 4,
{
    ComponentSize(4)
}

pub fn float() -> (r: ComponentType)
    ensures
        r.raw() == sys::FLOAT,
{
    ComponentType(sys::FLOAT)
}

pub fn byte() -> (r: ComponentType)
    ensures
        r.raw() == sys::BYTE,
{
    ComponentType(sys::BYTE)
}

pub fn unsigned_byte() -> (r: ComponentType)
    ensures
        r.raw() == sys::UNSIGNED_BYTE,
{
    ComponentType(sys::UNSIGNED_BYTE)
}

pub fn short() -> (r: ComponentType)
    ensures
        r.raw() == sys::SHORT,
{
    ComponentType(sys::SHORT)
}

/// Turns on the vertex attribute at `index`.
pub fn enable_vertex_attrib_array(ctx: &mut Context, index: usize)
    ensures
        final(ctx).log() == old(ctx).log().push(GlCall::EnableVertexAttribArray { index }),
        final(ctx).data() == old(ctx).data(),
        final(ctx).texts() == old(ctx).texts(),
{
    ctx.record(GlCall::EnableVertexAttribArray { index });
}

/// Turns off the vertex attribute at `index`.
pub fn disable_vertex_attrib_array(ctx: &mut Context, index: usize)
    ensures
        final(ctx).log() == old(ctx).log().push(GlCall::DisableVertexAttribArray { index }),
        final(ctx).data() == old(ctx).data(),
        final(ctx).texts() == old(ctx).texts(),
{
    ctx.record(GlCall::DisableVertexAttribArray { index });
}

/// Describes where the attribute at `index` lies in the bound array buffer.
pub fn vertex_attrib_pointer(
    ctx: &mut Context,
    index: usize,
    size: ComponentSize,
    value_type: ComponentType,
    normalized: bool,
    stride: usize,
    offset: usize,
)
    ensures
        final(ctx).log() == old(ctx).log().push(
            GlCall::VertexAttribPointer {
                index,
                size: size.raw(),
                component_type: value_type.raw(),
                normalized,
                stride,
                offset,
            },
        ),
        final(ctx).data() == old(ctx).data(),
        final(ctx).texts() == old(ctx).texts(),
{
    ctx.record(
        GlCall::VertexAttribPointer {
            index,
            size: size.raw_handle(),
            component_type: value_type.raw_handle(),
            normalized,
            stride,
            offset,
        },
    );
}

} // verus!
