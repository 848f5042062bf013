//! Clearing and drawing.
use vstd::prelude::*;

use crate::gl::context::{Context, GlCall};
use crate::gl::sys::{self, RawHandle};

verus! {

/// A set of buffers to clear, as a bit mask; masks combine with `|`.
#[derive(Debug, Clone, Copy, PartialEq, Eq, Structural)]
pub struct ClearMask(u32);

impl RawHandle<u32> for ClearMask {
    closed spec fn raw(&self) -> u32 {
        self.0
    }

    fn raw_handle(&self) -> (r: u32) {
        self.0
    }
}

pub fn color() -> (r: ClearMask)
    ensures
        r.raw() == sys::COLOR_BUFFER_BIT,
{
    ClearMask(sys::COLOR_BUFFER_BIT)
}

pub fn depth() -> (r: ClearMask)
    ensures
        r.raw() == sys::DEPTH_BUFFER_BIT,
{
    ClearMask(sys::DEPTH_BUFFER_BIT)
}

pub fn stencil() -> (r: ClearMask)
    ensures
        r.raw() == sys::STENCIL_BUFFER_BIT,
{
    ClearMask(sys::STENCIL_BUFFER_BIT)
}

impl core::ops::BitOr for ClearMask {
    type Output = Self;

    fn bitor(self, rhs: Self) -> (r: Self)
        ensures
            r.raw() == self.raw() | rhs.raw(),
    {
        ClearMask(self.0 | rhs.0)
    }
}

impl vstd::std_specs::ops::BitOrSpecImpl for ClearMask {
    open spec fn obeys_bitor_spec() -> bool {
        true
    }

    open spec fn bitor_req(self, rhs: Self) -> bool {
        true
    }

    closed spec fn bitor_spec(self, rhs: Self) -> Self {
        ClearMask(self.0 | rhs.0)
    }
}

/// The kind of primitive a draw call assembles.
#[derive(Debug, Clone, Copy, PartialEq, Eq, Structural)]
pub struct DrawMode(u32);

impl RawHandle<u32> for DrawMode {
    closed spec fn raw(&self) -> u32 {
        self.0
    }

    fn raw_handle(&self) -> (r: u32) {
        self.0
    }
}

pub fn points() -> (r: DrawMode)
    ensures
        r.raw() == sys::POINTS,
{
    DrawMode(sys::POINTS)
}

pub fn line_strip() -> (r: DrawMode)
    ensures
        r.raw() == sys::LINE_STRIP,
{
    DrawMode(sys::LINE_STRIP)
}

pub fn line_loop() -> (r: DrawMode)
    ensures
        r.raw() == sys::LINE_LOOP,
{
    DrawMode(sys::LINE_LOOP)
}

pub fn lines() -> (r: DrawMode)
    ensures
        r.raw() == sys::LINES,
{
    DrawMode(sys::LINES)
}

pub fn triangle_strip() -> (r: DrawMode)
    ensures
        r.raw() == sys::TRIANGLE_STRIP,
{
    DrawMode(sys::TRIANGLE_STRIP)
}

pub fn triangle_fan() -> (r: DrawMode)
    ensures
        r.raw() == sys::TRIANGLE_FAN,
{
    DrawMode(sys::TRIANGLE_FAN)
}

pub fn triangles() -> (r: DrawMode)
    ensures
        r.raw() == sys::TRIANGLES,
{
    DrawMode(sys::TRIANGLES)
}

/// Clears the buffers named by the mask.
pub fn clear(ctx: &mut Context, clear_mask: ClearMask)
    ensures
        final(ctx).log() == old(ctx).log().push(GlCall::Clear { mask: clear_mask.raw() }),
        final(ctx).data() == old(ctx).data(),
        final(ctx).texts() == old(ctx).texts(),
{
    ctx.record(GlCall::Clear { mask: clear_mask.0 });
}

/// The byte of `argb` that starts `shift` bits from the low end.
pub open spec fn channel(argb: u32, shift: u32) -> u8 {
    ((argb >> shift) & 0xFF) as u8
}

/// Sets the clear colour from a packed 0xAARRGGBB value; each channel is
/// recorded as its byte, standing for that byte divided by 255.
pub fn clear_color(ctx: &mut Context, color_argb: u32)
    ensures
        final(ctx).log() == old(ctx).log().push(
            GlCall::ClearColor {
                red: channel(color_argb, 16),
                green: channel(color_argb, 8),
                blue: channel(color_argb, 0),
                alpha: channel(color_argb, 24),
            },
        ),
        final(ctx).data() == old(ctx).data(),
        final(ctx).texts() == old(ctx).texts(),
{
    let a = ((color_argb >> 24u32) & 0xFF) as u8;
    let r = ((color_argb >> 16u32) & 0xFF) as u8;
    let g = ((color_argb >> 8u32) & 0xFF) as u8;
    let b = ((color_argb >> 0u32) & 0xFF) as u8;
    ctx.record(GlCall::ClearColor { red: r, green: g, blue: b, alpha: a });
}

/// Draws `count` vertices of the bound vertex array, starting at `start_index`.
pub fn draw_arrays(ctx: &mut Context, draw_mode: DrawMode, start_index: usize, count: usize)
    ensures
        final(ctx).log() == old(ctx).log().push(
            GlCall::DrawArrays { mode: draw_mode.raw(), first: start_index, count },
        ),
        final(ctx).data() == old(ctx).data(),
        final(ctx).texts() == old(ctx).texts(),
{
    ctx.record(GlCall::DrawArrays { mode: draw_mode.0, first: start_index, count });
}

/// The index type for indices of `index_width` bytes: two-byte indices are
/// unsigned shorts, any other width is taken as unsigned ints.
pub open spec fn index_type_spec(index_width: usize) -> u32 {
    if index_width == 2 {
        sys::UNSIGNED_SHORT
    } else {
        sys::UNSIGNED_INT
    }
}

pub fn index_type(index_width: usize) -> (r: u32)
    ensures
        r == index_type_spec(index_width),
{
    if index_width == 2 {
        sys::UNSIGNED_SHORT
    } else {
        sys::UNSIGNED_INT
    }
}

/// Draws `count` indexed vertices: the indices, each `index_width` bytes wide,
/// start `index_offset` bytes into the bound element buffer, and
/// `base_vertex` is added to each index.
pub fn draw_elements_base_vertex(
    ctx: &mut Context,
    draw_mode: DrawMode,
    count: usize,
    index_width: usize,
    index_offset: usize,
    base_vertex: usize,
)
    ensures
        final(ctx).log() == old(ctx).log().push(
            GlCall::DrawElementsBaseVertex {
                mode: draw_mode.raw(),
                count,
                index_type: index_type_spec(index_width),
                offset: index_offset,
                base_vertex,
            },
        ),
        final(ctx).data() == old(ctx).data(),
        final(ctx).texts() == old(ctx).texts(),
{
    let index_type = index_type(index_width);
    ctx.record(
        GlCall::DrawElementsBaseVertex {
            mode: draw_mode.0,
            count,
            index_type,
            offset: index_offset,
            base_vertex,
        },
    );
}

} // verus!
