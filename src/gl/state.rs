//! Viewport, scissor box and blending state.
use vstd::prelude::*;

use crate::gl::context::{Context, GlCall};
use crate::gl::sys::{self, RawHandle};

verus! {

/// Sets the viewport rectangle, in pixels, from the lower-left corner.
pub fn viewport(ctx: &mut Context, pos: (i32, i32), size: (i32, i32))
    ensures
        final(ctx).log() == old(ctx).log().push(
            GlCall::Viewport { x: pos.0, y: pos.1, width: size.0, height: size.1 },
        ),
        final(ctx).data() == old(ctx).data(),
        final(ctx).texts() == old(ctx).texts(),
{
    ctx.record(GlCall::Viewport { x: pos.0, y: pos.1, width: size.0, height: size.1 });
}

/// Sets the scissor box, in pixels, from the lower-left corner; the
/// position may lie left of or below the framebuffer.
pub fn scissor(ctx: &mut Context, pos: (i32, i32), size: (i32, i32))
    ensures
        final(ctx).log() == old(ctx).log().push(
            GlCall::Scissor { x: pos.0, y: pos.1, width: size.0, height: size.1 },
        ),
        final(ctx).data() == old(ctx).data(),
        final(ctx).texts() == old(ctx).texts(),
{
    ctx.record(GlCall::Scissor { x: pos.0, y: pos.1, width: size.0, height: size.1 });
}

/// How source and destination colours are combined.
#[derive(Debug, Clone, Copy, PartialEq, Eq, Structural)]
pub struct BlendEquation(u32);

impl RawHandle<u32> for BlendEquation {
    closed spec fn raw(&self) -> u32 {
        self.0
    }

    fn raw_handle(&self) -> (r: u32) {
        self.0
    }
}

pub fn func_add() -> (r: BlendEquation)
    ensures
        r.raw() == sys::FUNC_ADD,
{
    BlendEquation(sys::FUNC_ADD)
}

pub fn func_subtract() -> (r: BlendEquation)
    ensures
        r.raw() == sys::FUNC_SUBTRACT,
{
    BlendEquation(sys::FUNC_SUBTRACT)
}

pub fn func_reverse_subtract() -> (r: BlendEquation)
    ensures
        r.raw() == sys::FUNC_REVERSE_SUBTRACT,
{
    BlendEquation(sys::FUNC_REVERSE_SUBTRACT)
}

/// Sets one blend equation for colour and alpha.
pub fn blend_equation(ctx: &mut Context, blend_equation: BlendEquation)
    ensures
        final(ctx).log() == old(ctx).log().push(GlCall::BlendEquation { equation: blend_equation.raw() }),
        final(ctx).data() == old(ctx).data(),
        final(ctx).texts() == old(ctx).texts(),
{
    ctx.record(GlCall::BlendEquation { equation: blend_equation.raw_handle() });
}

/// Sets the blend equations for colour and for alpha.
pub fn blend_equation_separate(
    ctx: &mut Context,
    blend_equation_rgb: BlendEquation,
    blend_equation_alpha: BlendEquation,
)
    ensures
        final(ctx).log() == old(ctx).log().push(
            GlCall::BlendEquationSeparate { rgb: blend_equation_rgb.raw(), alpha: blend_equation_alpha.raw() },
        ),
        final(ctx).data() == old(ctx).data(),
        final(ctx).texts() == old(ctx).texts(),
{
    ctx.record(
        GlCall::BlendEquationSeparate {
            rgb: blend_equation_rgb.raw_handle(),
            alpha: blend_equation_alpha.raw_handle(),
        },
    );
}

/// A factor that scales a source or destination colour in blending.
#[derive(Debug, Clone, Copy, PartialEq, Eq, Structural)]
pub struct BlendFuncFactor(u32);

impl RawHandle<u32> for BlendFuncFactor {
    closed spec fn raw(&self) -> u32 {
        self.0
    }

    fn raw_handle(&self) -> (r: u32) {
        self.0
    }
}

pub fn zero() -> (r: BlendFuncFactor)
    ensures
        r.raw() == sys::ZERO,
{
    BlendFuncFactor(sys::ZERO)
}

pub fn one() -> (r: BlendFuncFactor)
    ensures
        r.raw() == sys::ONE,
{
    BlendFuncFactor(sys::ONE)
}

pub fn src_color() -> (r: BlendFuncFactor)
    ensures
        r.raw() == sys::SRC_COLOR,
{
    BlendFuncFactor(sys::SRC_COLOR)
}

pub fn one_minus_src_color() -> (r: BlendFuncFactor)
    ensures
        r.raw() == sys::ONE_MINUS_SRC_COLOR,
{
    BlendFuncFactor(sys::ONE_MINUS_SRC_COLOR)
}

pub fn dst_color() -> (r: BlendFuncFactor)
    ensures
        r.raw() == sys::DST_COLOR,
{
    BlendFuncFactor(sys::DST_COLOR)
}

pub fn one_minus_dst_color() -> (r: BlendFuncFactor)
    ensures
        r.raw() == sys::ONE_MINUS_DST_COLOR,
{
    BlendFuncFactor(sys::ONE_MINUS_DST_COLOR)
}

pub fn src_alpha() -> (r: BlendFuncFactor)
    ensures
        r.raw() == sys::SRC_ALPHA,
{
    BlendFuncFactor(sys::SRC_ALPHA)
}

pub fn one_minus_src_alpha() -> (r: BlendFuncFactor)
    ensures
        r.raw() == sys::ONE_MINUS_SRC_ALPHA,
{
    BlendFuncFactor(sys::ONE_MINUS_SRC_ALPHA)
}

pub fn dst_alpha() -> (r: BlendFuncFactor)
    ensures
        r.raw() == sys::DST_ALPHA,
{
    BlendFuncFactor(sys::DST_ALPHA)
}

pub fn one_minus_dst_alpha() -> (r: BlendFuncFactor)
    ensures
        r.raw() == sys::ONE_MINUS_DST_ALPHA,
{
    BlendFuncFactor(sys::ONE_MINUS_DST_ALPHA)
}

pub fn constant_color() -> (r: BlendFuncFactor)
    ensures
        r.raw() == sys::CONSTANT_COLOR,
{
    BlendFuncFactor(sys::CONSTANT_COLOR)
}

pub fn one_minus_constant_color() -> (r: BlendFuncFactor)
    ensures
        r.raw() == sys::ONE_MINUS_CONSTANT_COLOR,
{
    BlendFuncFactor(sys::ONE_MINUS_CONSTANT_COLOR)
}

pub fn constant_alpha() -> (r: BlendFuncFactor)
    ensures
        r.raw() == sys::CONSTANT_ALPHA,
{
    BlendFuncFactor(sys::CONSTANT_ALPHA)
}

pub fn one_minus_constant_alpha() -> (r: BlendFuncFactor)
    ensures
        r.raw() == sys::ONE_MINUS_CONSTANT_ALPHA,
{
    BlendFuncFactor(sys::ONE_MINUS_CONSTANT_ALPHA)
}

/// Valid as a source factor only.
pub fn src_alpha_saturate() -> (r: BlendFuncFactor)
    ensures
        r.raw() == sys::SRC_ALPHA_SATURATE,
{
    BlendFuncFactor(sys::SRC_ALPHA_SATURATE)
}

/// Sets the source and destination factors for colour and for alpha.
pub fn blend_func_separate(
    ctx: &mut Context,
    blend_func_factor_source_rgb: BlendFuncFactor,
    blend_func_factor_destination_rgb: BlendFuncFactor,
    blend_func_factor_source_alpha: BlendFuncFactor,
    blend_func_factor_destination_alpha: BlendFuncFactor,
)
    ensures
        final(ctx).log() == old(ctx).log().push(
            GlCall::BlendFuncSeparate {
                src_rgb: blend_func_factor_source_rgb.raw(),
                dst_rgb: blend_func_factor_destination_rgb.raw(),
                src_alpha: blend_func_factor_source_alpha.raw(),
                dst_alpha: blend_func_factor_destination_alpha.raw(),
            },
        ),
        final(ctx).data() == old(ctx).data(),
        final(ctx).texts() == old(ctx).texts(),
{
    ctx.record(
        GlCall::BlendFuncSeparate {
            src_rgb: blend_func_factor_source_rgb.raw_handle(),
            dst_rgb: blend_func_factor_destination_rgb.raw_handle(),
            src_alpha: blend_func_factor_source_alpha.raw_handle(),
            dst_alpha: blend_func_factor_destination_alpha.raw_handle(),
        },
    );
}

/// Rasterises both faces of polygons as filled areas.
pub fn polygon_fill(ctx: &mut Context)
    ensures
        final(ctx).log() == old(ctx).log().push(
            GlCall::PolygonMode { face: sys::FRONT_AND_BACK, mode: sys::FILL },
        ),
        final(ctx).data() == old(ctx).data(),
        final(ctx).texts() == old(ctx).texts(),
{
    ctx.record(GlCall::PolygonMode { face: sys::FRONT_AND_BACK, mode: sys::FILL });
}

} // verus!
