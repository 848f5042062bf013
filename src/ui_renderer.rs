//! The immediate-mode UI render bridge: turns one frame's draw lists into
//! graphics-API calls over one shared vertex buffer, index buffer and vertex
//! array, culling commands whose clip rectangle misses the framebuffer.
use vstd::prelude::*;

use crate::gl::buffer::{self, BufferId};
use crate::gl::capabilities;
use crate::gl::context::{draw_count, is_draw, Context, GlCall};
use crate::gl::program::{self as gl_program, UniformLocation};
use crate::gl::rendering::{self, index_type_spec};
use crate::gl::state;
use crate::gl::sys::{self, RawHandle};
use crate::gl::texture::{self as gl_texture, TextureId};
use crate::gl::vertex_array::{self, VertexArrayId};
use crate::gl::vertex_attrib;
use crate::program::Program;

verus! {

/// Byte offset of the texture coordinate in a UI vertex (after two floats).
pub const UV_OFFSET: usize = 8;

/// Byte offset of the packed colour in a UI vertex (after four floats).
pub const COLOR_OFFSET: usize = 16;

/// A clip rectangle in UI coordinates (origin at the top left), in whole pixels.
#[derive(Debug, Clone, Copy, PartialEq, Eq, Structural)]
pub struct ClipRect {
    pub x1: i32,
    pub y1: i32,
    pub x2: i32,
    pub y2: i32,
}

/// One indexed draw of a draw list.
#[derive(Debug, Clone, Copy, PartialEq, Eq, Structural)]
pub struct DrawCommand {
    pub count: usize,
    pub clip_rect: ClipRect,
    pub texture_id: TextureId,
    pub vtx_offset: usize,
    pub idx_offset: usize,
}

/// One draw list: its vertex and index data as bytes, and its commands.
pub struct DrawList {
    pub vertices: Vec<u8>,
    pub indices: Vec<u8>,
    pub commands: Vec<DrawCommand>,
}

/// Where the display lies, in whole pixels, and how wide one index is.
#[derive(Debug, Clone, Copy, PartialEq, Eq, Structural)]
pub struct FrameGeometry {
    pub display_x: i32,
    pub display_y: i32,
    pub display_width: i32,
    pub display_height: i32,
    pub index_width: usize,
}

/// Everything the UI produced for one frame.
pub struct DrawFrame {
    pub geometry: FrameGeometry,
    pub lists: Vec<DrawList>,
}

/// A pixel coordinate as the API takes it: exact within the API's signed
/// 32-bit range, and stopped at its ends beyond it.
pub open spec fn clamp_coordinate(v: int) -> i32 {
    if v <= i32::MIN {
        i32::MIN
    } else if v >= i32::MAX {
        i32::MAX
    } else {
        v as i32
    }
}

/// A pixel extent as the API takes it: a negative extent is an empty one,
/// and extents beyond the API's signed 32-bit range stop at its top.
pub open spec fn clamp_size(v: int) -> i32 {
    if v <= 0 {
        0
    } else if v >= i32::MAX {
        i32::MAX
    } else {
        v as i32
    }
}

/// The framebuffer's right edge, as the display's origin plus its width.
pub open spec fn frame_right(g: FrameGeometry) -> int {
    g.display_x + g.display_width
}

/// The framebuffer's bottom edge, as the display's origin plus its height.
pub open spec fn frame_bottom(g: FrameGeometry) -> int {
    g.display_y + g.display_height
}

/// Whether a clip rectangle, taken relative to the display origin, reaches
/// the framebuffer: its right and bottom edges are not before zero, and its
/// left and top edges are before the framebuffer's extent.
pub open spec fn is_visible(c: ClipRect, g: FrameGeometry) -> bool {
    &&& c.x1 - g.display_x < frame_right(g)
    &&& c.y1 - g.display_y < frame_bottom(g)
    &&& c.x2 - g.display_x >= 0
    &&& c.y2 - g.display_y >= 0
}

/// The scissor box of a clip rectangle: the rectangle itself, taken relative
/// to the display origin and flipped so that its origin is the framebuffer's
/// bottom left. Its corner may lie left of or below the framebuffer; the box
/// is never moved, so it covers exactly the pixels the rectangle covers.
pub open spec fn scissor_call(c: ClipRect, g: FrameGeometry) -> GlCall {
    GlCall::Scissor {
        x: clamp_coordinate(c.x1 - g.display_x),
        y: clamp_coordinate(frame_bottom(g) - (c.y2 - g.display_y)),
        width: clamp_size(c.x2 - c.x1),
        height: clamp_size(c.y2 - c.y1),
    }
}

/// Whenever the rectangle's coordinates fit the API's range, the scissor box
/// is the clip rectangle itself, Y-flipped: neither shifted nor shrunk, also
/// when it starts left of or below the framebuffer.
pub proof fn lemma_scissor_is_clip_rect(c: ClipRect, g: FrameGeometry)
    requires
        c.x1 <= c.x2,
        c.y1 <= c.y2,
        i32::MIN <= c.x1 - g.display_x <= i32::MAX,
        i32::MIN <= frame_bottom(g) - (c.y2 - g.display_y) <= i32::MAX,
        c.x2 - c.x1 <= i32::MAX,
        c.y2 - c.y1 <= i32::MAX,
    ensures
        scissor_call(c, g) == (GlCall::Scissor {
            x: (c.x1 - g.display_x) as i32,
            y: (frame_bottom(g) - (c.y2 - g.display_y)) as i32,
            width: (c.x2 - c.x1) as i32,
            height: (c.y2 - c.y1) as i32,
        }),
{
}

/// The calls for one command: nothing when it is culled; otherwise its
/// scissor box, its texture and one indexed draw.
pub open spec fn command_calls(cmd: DrawCommand, g: FrameGeometry) -> Seq<GlCall> {
    if is_visible(cmd.clip_rect, g) {
        seq![
            scissor_call(cmd.clip_rect, g),
            GlCall::BindTexture { target: sys::TEXTURE_2D, texture: cmd.texture_id.raw() },
            GlCall::DrawElementsBaseVertex {
                mode: sys::TRIANGLES,
                count: cmd.count,
                index_type: index_type_spec(g.index_width),
                offset: (cmd.idx_offset * g.index_width) as usize,
                base_vertex: cmd.vtx_offset,
            },
        ]
    } else {
        Seq::empty()
    }
}

pub open spec fn commands_calls(cmds: Seq<DrawCommand>, g: FrameGeometry) -> Seq<GlCall>
    decreases cmds.len(),
{
    if cmds.len() == 0 {
        Seq::empty()
    } else {
        commands_calls(cmds.drop_last(), g) + command_calls(cmds.last(), g)
    }
}

/// The calls for one draw list whose vertex data is payload `payload` and
/// whose index data is the payload after it.
pub open spec fn list_calls(list: DrawList, payload: int, g: FrameGeometry) -> Seq<GlCall> {
    seq![
        GlCall::BufferData { target: sys::ARRAY_BUFFER, payload: payload as usize, usage: sys::STREAM_DRAW },
        GlCall::BufferData {
            target: sys::ELEMENT_ARRAY_BUFFER,
            payload: (payload + 1) as usize,
            usage: sys::STREAM_DRAW,
        },
    ] + commands_calls(list.commands@, g)
}

/// The calls for a sequence of draw lists whose data starts at payload `first`.
pub open spec fn lists_calls(lists: Seq<DrawList>, first: int, g: FrameGeometry) -> Seq<GlCall>
    decreases lists.len(),
{
    if lists.len() == 0 {
        Seq::empty()
    } else {
        lists_calls(lists.drop_last(), first, g) + list_calls(
            lists.last(),
            first + 2 * (lists.len() - 1),
            g,
        )
    }
}

/// The data that a sequence of draw lists hands to the context: each list's
/// vertices, then its indices.
pub open spec fn lists_data(lists: Seq<DrawList>) -> Seq<Seq<u8>>
    decreases lists.len(),
{
    if lists.len() == 0 {
        Seq::empty()
    } else {
        lists_data(lists.drop_last()) + seq![lists.last().vertices@, lists.last().indices@]
    }
}

/// Whether every command's index offset, in bytes, fits a `usize`.
pub open spec fn offsets_fit(frame: DrawFrame) -> bool {
    forall|i: int, j: int|
        0 <= i < frame.lists@.len() && 0 <= j < frame.lists@[i].commands@.len() ==> (
        #[trigger] frame.lists@[i].commands@[j]).idx_offset * frame.geometry.index_width <= usize::MAX
}

/// The state the bridge sets up for the UI: blending on, culling, depth and
/// stencil tests off, scissoring on, polygons filled.
pub open spec fn ui_state_calls() -> Seq<GlCall> {
    seq![
        GlCall::Enable { capability: sys::BLEND },
        GlCall::BlendEquation { equation: sys::FUNC_ADD },
        GlCall::BlendFuncSeparate {
            src_rgb: sys::SRC_ALPHA,
            dst_rgb: sys::ONE_MINUS_SRC_ALPHA,
            src_alpha: sys::ONE,
            dst_alpha: sys::ONE_MINUS_SRC_ALPHA,
        },
        GlCall::Disable { capability: sys::CULL_FACE },
        GlCall::Disable { capability: sys::DEPTH_TEST },
        GlCall::Disable { capability: sys::STENCIL_TEST },
        GlCall::Enable { capability: sys::SCISSOR_TEST },
        GlCall::PolygonMode { face: sys::FRONT_AND_BACK, mode: sys::FILL },
    ]
}

/// The state restored after the pass: blending off, culling back on,
/// scissoring off.
pub open spec fn restore_calls() -> Seq<GlCall> {
    seq![
        GlCall::Disable { capability: sys::BLEND },
        GlCall::Enable { capability: sys::CULL_FACE },
        GlCall::Disable { capability: sys::SCISSOR_TEST },
    ]
}

/// The deletion of an object with name `name`: the call, unless the name is
/// the null sentinel.
pub open spec fn release_call(name: u32, call: GlCall) -> Seq<GlCall> {
    if name != 0 {
        seq![call]
    } else {
        Seq::empty()
    }
}

/// The GPU-side objects of the UI bridge, shared by all draw calls of a frame.
pub struct UiRenderer {
    program: Program,
    proj_matrix_uniform_location: UniformLocation,
    texture_uniform_location: UniformLocation,
    vao: VertexArrayId,
    vbo: BufferId,
    element_buffer_object: BufferId,
}

fn clamp_coordinate_exec(v: i64) -> (r: i32)
    ensures
        r == clamp_coordinate(v as int),
{
    if v <= i32::MIN as i64 {
        i32::MIN
    } else if v >= i32::MAX as i64 {
        i32::MAX
    } else {
        v as i32
    }
}

fn clamp_size_exec(v: i64) -> (r: i32)
    ensures
        r == clamp_size(v as int),
{
    if v <= 0 {
        0
    } else if v >= i32::MAX as i64 {
        i32::MAX
    } else {
        v as i32
    }
}

/// The calls that make one command visible, or none when it is culled.
fn render_command(ctx: &mut Context, cmd: DrawCommand, g: FrameGeometry)
    requires
        cmd.idx_offset * g.index_width <= usize::MAX,
    ensures
        final(ctx).log() == old(ctx).log() + command_calls(cmd, g),
        final(ctx).data() == old(ctx).data(),
        final(ctx).texts() == old(ctx).texts(),
{
    let c = cmd.clip_rect;
    let x1 = c.x1 as i64 - g.display_x as i64;
    let y1 = c.y1 as i64 - g.display_y as i64;
    let x2 = c.x2 as i64 - g.display_x as i64;
    let y2 = c.y2 as i64 - g.display_y as i64;
    let right = g.display_x as i64 + g.display_width as i64;
    let bottom = g.display_y as i64 + g.display_height as i64;
    if x1 < right && y1 < bottom && x2 >= 0 && y2 >= 0 {
        let pos = (clamp_coordinate_exec(x1), clamp_coordinate_exec(bottom - y2));
        let size = (clamp_size_exec(c.x2 as i64 - c.x1 as i64), clamp_size_exec(c.y2 as i64 - c.y1 as i64));
        state::scissor(ctx, pos, size);
        gl_texture::bind_texture_2d(ctx, cmd.texture_id);
        rendering::draw_elements_base_vertex(
            ctx,
            rendering::triangles(),
            cmd.count,
            g.index_width,
            cmd.idx_offset * g.index_width,
            cmd.vtx_offset,
        );
        assert(ctx.log() =~= old(ctx).log() + command_calls(cmd, g));
    } else {
        assert(ctx.log() =~= old(ctx).log() + command_calls(cmd, g));
    }
}

/// Uploads one list's data into the shared buffers and draws its commands.
fn render_list(ctx: &mut Context, list: &DrawList, g: FrameGeometry)
    requires
        forall|j: int|
            0 <= j < list.commands@.len() ==> (#[trigger] list.commands@[j]).idx_offset * g.index_width
                <= usize::MAX,
    ensures
        final(ctx).log() == old(ctx).log() + list_calls(*list, old(ctx).data().len() as int, g),
        final(ctx).data() == old(ctx).data() + seq![list.vertices@, list.indices@],
        final(ctx).texts() == old(ctx).texts(),
{
    buffer::buffer_data(ctx, buffer::array_buffer(), list.vertices.clone(), buffer::stream_draw());
    buffer::buffer_data(ctx, buffer::element_array_buffer(), list.indices.clone(), buffer::stream_draw());
    let ghost log1 = ctx.log();
    let mut j: usize = 0;
    while j < list.commands.len()
        invariant
            j <= list.commands@.len(),
            forall|k: int|
                0 <= k < list.commands@.len() ==> (#[trigger] list.commands@[k]).idx_offset * g.index_width
                    <= usize::MAX,
            ctx.log() == log1 + commands_calls(list.commands@.subrange(0, j as int), g),
            ctx.data() == old(ctx).data() + seq![list.vertices@, list.indices@],
            ctx.texts() == old(ctx).texts(),
        decreases list.commands@.len() - j,
    {
        proof {
            assert(list.commands@.subrange(0, j + 1).drop_last() =~= list.commands@.subrange(0, j as int));
        }
        render_command(ctx, list.commands[j], g);
        assert(ctx.log() =~= log1 + commands_calls(list.commands@.subrange(0, j + 1), g));
        j = j + 1;
    }
    assert(list.commands@.subrange(0, j as int) =~= list.commands@);
    assert(ctx.data() =~= old(ctx).data() + seq![list.vertices@, list.indices@]);
    assert(ctx.log() =~= old(ctx).log() + list_calls(*list, old(ctx).data().len() as int, g));
}

impl UiRenderer {
    pub closed spec fn program_id(&self) -> u32 {
        self.program.handle().raw()
    }

    pub closed spec fn projection_location(&self) -> i32 {
        self.proj_matrix_uniform_location.raw()
    }

    pub closed spec fn texture_location(&self) -> i32 {
        self.texture_uniform_location.raw()
    }

    pub closed spec fn vertex_array(&self) -> u32 {
        self.vao.raw()
    }

    pub closed spec fn vertex_buffer(&self) -> u32 {
        self.vbo.raw()
    }

    pub closed spec fn index_buffer(&self) -> u32 {
        self.element_buffer_object.raw()
    }

    /// The calls that open a frame: the UI state, the viewport over the
    /// display, the program with texture unit zero and the projection in
    /// payload `projection`, and the shared vertex array and buffers.
    pub open spec fn frame_start_calls(&self, g: FrameGeometry, projection: int) -> Seq<GlCall> {
        ui_state_calls() + seq![
            GlCall::Viewport {
                x: g.display_x,
                y: g.display_y,
                width: clamp_size(g.display_width as int),
                height: clamp_size(g.display_height as int),
            },
            GlCall::UseProgram { program: self.program_id() },
            GlCall::Uniform1i { location: self.texture_location(), value: 0 },
            GlCall::UniformMatrix4 {
                location: self.projection_location(),
                transposed: false,
                payload: projection as usize,
            },
            GlCall::BindVertexArray { vertex_array: self.vertex_array() },
            GlCall::BindBuffer { target: sys::ARRAY_BUFFER, buffer: self.vertex_buffer() },
            GlCall::BindBuffer { target: sys::ELEMENT_ARRAY_BUFFER, buffer: self.index_buffer() },
            GlCall::ActiveTexture { unit: sys::TEXTURE0 },
        ]
    }

    /// Every call of one frame whose data starts at payload `first`.
    pub open spec fn frame_calls(&self, frame: DrawFrame, first: int) -> Seq<GlCall> {
        self.frame_start_calls(frame.geometry, first) + lists_calls(frame.lists@, first + 1, frame.geometry)
            + restore_calls()
    }

    /// Sets up the vertex layout of UI vertices (two floats of position, two
    /// of texture coordinate, four normalised bytes of colour, `vertex_size`
    /// bytes in all) in the vertex array `vao`, reading from `vbo`.
    pub fn new(
        ctx: &mut Context,
        program: Program,
        vbo: BufferId,
        element_buffer_object: BufferId,
        vao: VertexArrayId,
        proj_matrix_uniform_location: UniformLocation,
        texture_uniform_location: UniformLocation,
        vertex_size: usize,
    ) -> (r: UiRenderer)
        ensures
            r.program_id() == program.handle().raw(),
            r.projection_location() == proj_matrix_uniform_location.raw(),
            r.texture_location() == texture_uniform_location.raw(),
            r.vertex_array() == vao.raw(),
            r.vertex_buffer() == vbo.raw(),
            r.index_buffer() == element_buffer_object.raw(),
            final(ctx).log() == old(ctx).log() + seq![
                GlCall::BindBuffer { target: sys::ARRAY_BUFFER, buffer: vbo.raw() },
                GlCall::BindBuffer { target: sys::ELEMENT_ARRAY_BUFFER, buffer: element_buffer_object.raw() },
                GlCall::UseProgram { program: program.handle().raw() },
                GlCall::BindVertexArray { vertex_array: vao.raw() },
                GlCall::EnableVertexAttribArray { index: 0 },
                GlCall::EnableVertexAttribArray { index: 1 },
                GlCall::EnableVertexAttribArray { index: 2 },
                GlCall::VertexAttribPointer {
                    index: 0,
                    size: 2,
                    component_type: sys::FLOAT,
                    normalized: false,
                    stride: vertex_size,
                    offset: 0,
                },
                GlCall::VertexAttribPointer {
                    index: 1,
                    size: 2,
                    component_type: sys::FLOAT,
                    normalized: false,
                    stride: vertex_size,
                    offset: UV_OFFSET,
                },
                GlCall::VertexAttribPointer {
                    index: 2,
                    size: 4,
                    component_type: sys::UNSIGNED_BYTE,
                    normalized: true,
                    stride: vertex_size,
                    offset: COLOR_OFFSET,
                },
                GlCall::BindVertexArray { vertex_array: 0 },
                GlCall::BindBuffer { target: sys::ARRAY_BUFFER, buffer: 0 },
                GlCall::BindBuffer { target: sys::ELEMENT_ARRAY_BUFFER, buffer: 0 },
            ],
            final(ctx).data() == old(ctx).data(),
            final(ctx).texts() == old(ctx).texts(),
    {
        buffer::bind_buffer(ctx, buffer::array_buffer(), vbo);
        buffer::bind_buffer(ctx, buffer::element_array_buffer(), element_buffer_object);
        program.set_used(ctx);
        vertex_array::bind_vertex_array(ctx, vao);
        vertex_attrib::enable_vertex_attrib_array(ctx, 0);
        vertex_attrib::enable_vertex_attrib_array(ctx, 1);
        vertex_attrib::enable_vertex_attrib_array(ctx, 2);
        vertex_attrib::vertex_attrib_pointer(ctx, 0, vertex_attrib::size_2(), vertex_attrib::float(), false, vertex_size, 0);
        vertex_attrib::vertex_attrib_pointer(
            ctx,
            1,
            vertex_attrib::size_2(),
            vertex_attrib::float(),
            false,
            vertex_size,
            UV_OFFSET,
        );
        vertex_attrib::vertex_attrib_pointer(
            ctx,
            2,
            vertex_attrib::size_4(),
            vertex_attrib::unsigned_byte(),
            true,
            vertex_size,
            COLOR_OFFSET,
        );
        vertex_array::bind_vertex_array(ctx, vertex_array::no_vertex_array());
        buffer::bind_buffer(ctx, buffer::array_buffer(), buffer::no_buffer());
        buffer::bind_buffer(ctx, buffer::element_array_buffer(), buffer::no_buffer());
        let r = UiRenderer {
            program,
            proj_matrix_uniform_location,
            texture_uniform_location,
            vao,
            vbo,
            element_buffer_object,
        };
        assert(ctx.log() =~= old(ctx).log() + seq![
            GlCall::BindBuffer { target: sys::ARRAY_BUFFER, buffer: vbo.raw() },
            GlCall::BindBuffer { target: sys::ELEMENT_ARRAY_BUFFER, buffer: element_buffer_object.raw() },
            GlCall::UseProgram { program: r.program_id() },
            GlCall::BindVertexArray { vertex_array: vao.raw() },
            GlCall::EnableVertexAttribArray { index: 0 },
            GlCall::EnableVertexAttribArray { index: 1 },
            GlCall::EnableVertexAttribArray { index: 2 },
            GlCall::VertexAttribPointer {
                index: 0,
                size: 2,
                component_type: sys::FLOAT,
                normalized: false,
                stride: vertex_size,
                offset: 0,
            },
            GlCall::VertexAttribPointer {
                index: 1,
                size: 2,
                component_type: sys::FLOAT,
                normalized: false,
                stride: vertex_size,
                offset: UV_OFFSET,
            },
            GlCall::VertexAttribPointer {
                index: 2,
                size: 4,
                component_type: sys::UNSIGNED_BYTE,
                normalized: true,
                stride: vertex_size,
                offset: COLOR_OFFSET,
            },
            GlCall::BindVertexArray { vertex_array: 0 },
            GlCall::BindBuffer { target: sys::ARRAY_BUFFER, buffer: 0 },
            GlCall::BindBuffer { target: sys::ELEMENT_ARRAY_BUFFER, buffer: 0 },
        ]);
        r
    }

    /// Releases the program, both buffers and the vertex array of the bridge.
    pub fn delete(self, ctx: &mut Context)
        ensures
            final(ctx).log() == old(ctx).log() + release_call(
                self.program_id(),
                GlCall::DeleteProgram { program: self.program_id() },
            ) + release_call(self.vertex_buffer(), GlCall::DeleteBuffer { buffer: self.vertex_buffer() })
                + release_call(self.index_buffer(), GlCall::DeleteBuffer { buffer: self.index_buffer() })
                + release_call(
                self.vertex_array(),
                GlCall::DeleteVertexArray { vertex_array: self.vertex_array() },
            ),
            final(ctx).data() == old(ctx).data(),
            final(ctx).texts() == old(ctx).texts(),
    {
        let ghost log0 = ctx.log();
        let ghost p = self.program_id();
        let ghost b = self.vertex_buffer();
        let ghost e = self.index_buffer();
        let ghost v = self.vertex_array();
        let UiRenderer { program, vao, vbo, element_buffer_object, .. } = self;
        let mut vao = vao;
        let mut vbo = vbo;
        let mut element_buffer_object = element_buffer_object;
        program.delete(ctx);
        let ghost log1 = ctx.log();
        assert(log1 =~= log0 + release_call(p, GlCall::DeleteProgram { program: p }));
        buffer::delete_buffer(ctx, &mut vbo);
        let ghost log2 = ctx.log();
        assert(log2 =~= log1 + release_call(b, GlCall::DeleteBuffer { buffer: b }));
        buffer::delete_buffer(ctx, &mut element_buffer_object);
        let ghost log3 = ctx.log();
        assert(log3 =~= log2 + release_call(e, GlCall::DeleteBuffer { buffer: e }));
        vertex_array::delete_vertex_array(ctx, &mut vao);
        assert(ctx.log() =~= log3 + release_call(v, GlCall::DeleteVertexArray { vertex_array: v }));
        assert(ctx.log() =~= log0 + release_call(p, GlCall::DeleteProgram { program: p }) + release_call(
            b,
            GlCall::DeleteBuffer { buffer: b },
        ) + release_call(e, GlCall::DeleteBuffer { buffer: e }) + release_call(
            v,
            GlCall::DeleteVertexArray { vertex_array: v },
        ));
    }

    /// Renders one frame: sets the UI state, uploads the projection matrix
    /// (`projection`, sixteen native-endian floats), then for each draw list
    /// replaces the shared buffers' contents and issues its visible
    /// commands, and finally switches blending and scissoring off and
    /// culling back on.
    pub fn render(&self, ctx: &mut Context, frame: &DrawFrame, projection: Vec<u8>)
        requires
            offsets_fit(*frame),
        ensures
            final(ctx).log() == old(ctx).log() + self.frame_calls(*frame, old(ctx).data().len() as int),
            final(ctx).data() == old(ctx).data().push(projection@) + lists_data(frame.lists@),
            final(ctx).texts() == old(ctx).texts(),
    {
        let g = frame.geometry;
        capabilities::enable(ctx, capabilities::blend());
        state::blend_equation(ctx, state::func_add());
        state::blend_func_separate(ctx, state::src_alpha(), state::one_minus_src_alpha(), state::one(), state::one_minus_src_alpha());
        capabilities::disable(ctx, capabilities::cull_face());
        capabilities::disable(ctx, capabilities::depth_test());
        capabilities::disable(ctx, capabilities::stencil_test());
        capabilities::enable(ctx, capabilities::scissor_test());
        state::polygon_fill(ctx);
        state::viewport(
            ctx,
            (g.display_x, g.display_y),
            (clamp_size_exec(g.display_width as i64), clamp_size_exec(g.display_height as i64)),
        );
        self.program.set_used(ctx);
        gl_program::uniform(ctx, self.texture_uniform_location, 0i32);
        gl_program::uniform_matrix4(ctx, self.proj_matrix_uniform_location, false, projection);
        vertex_array::bind_vertex_array(ctx, self.vao);
        buffer::bind_buffer(ctx, buffer::array_buffer(), self.vbo);
        buffer::bind_buffer(ctx, buffer::element_array_buffer(), self.element_buffer_object);
        ctx.record(GlCall::ActiveTexture { unit: sys::TEXTURE0 });
        let ghost first = old(ctx).data().len() as int;
        assert(ctx.log() =~= old(ctx).log() + self.frame_start_calls(g, first));
        let ghost log1 = ctx.log();
        let ghost data1 = ctx.data();
        let mut i: usize = 0;
        while i < frame.lists.len()
            invariant
                i <= frame.lists@.len(),
                offsets_fit(*frame),
                g == frame.geometry,
                data1.len() == first + 1,
                ctx.log() == log1 + lists_calls(frame.lists@.subrange(0, i as int), first + 1, g),
                ctx.data() == data1 + lists_data(frame.lists@.subrange(0, i as int)),
                ctx.data().len() == first + 1 + 2 * i,
                ctx.texts() == old(ctx).texts(),
            decreases frame.lists@.len() - i,
        {
            let ghost pre = frame.lists@.subrange(0, i as int);
            let ghost next = frame.lists@.subrange(0, i + 1);
            proof {
                assert(next.drop_last() =~= pre);
                assert(next.last() == frame.lists@[i as int]);
            }
            let list = &frame.lists[i];
            assert forall|j: int|
                0 <= j < list.commands@.len() implies (#[trigger] list.commands@[j]).idx_offset * g.index_width
                <= usize::MAX by {
                assert(frame.lists@[i as int].commands@[j] == list.commands@[j]);
            }
            render_list(ctx, list, g);
            assert(ctx.log() =~= log1 + lists_calls(next, first + 1, g));
            assert(ctx.data() =~= data1 + lists_data(next));
            i = i + 1;
        }
        assert(frame.lists@.subrange(0, i as int) =~= frame.lists@);
        capabilities::disable(ctx, capabilities::blend());
        capabilities::enable(ctx, capabilities::cull_face());
        capabilities::disable(ctx, capabilities::scissor_test());
        assert(ctx.log() =~= old(ctx).log() + self.frame_calls(*frame, first));
    }
}

/// Hands over the characters typed since the last frame and leaves the queue
/// empty, whatever the caller then does with them.
pub fn take_chars(chars: &mut Vec<char>) -> (r: Vec<char>)
    ensures
        r@ == old(chars)@,
        final(chars)@.len() == 0,
{
    let mut r: Vec<char> = Vec::new();
    core::mem::swap(chars, &mut r);
    r
}

/// A command whose clip rectangle ends left of the display origin lies
/// outside the framebuffer, so it issues no call at all, and no draw.
pub proof fn lemma_left_of_frame_is_culled(cmd: DrawCommand, g: FrameGeometry)
    requires
        cmd.clip_rect.x2 < g.display_x,
    ensures
        command_calls(cmd, g) == Seq::<GlCall>::empty(),
        draw_count(command_calls(cmd, g)) == 0,
{
}

/// The number of commands whose clip rectangle reaches the framebuffer.
pub open spec fn visible_count(cmds: Seq<DrawCommand>, g: FrameGeometry) -> nat
    decreases cmds.len(),
{
    if cmds.len() == 0 {
        0
    } else {
        visible_count(cmds.drop_last(), g) + if is_visible(cmds.last().clip_rect, g) {
            1nat
        } else {
            0nat
        }
    }
}

/// The number of visible commands over a sequence of draw lists.
pub open spec fn lists_visible_count(lists: Seq<DrawList>, g: FrameGeometry) -> nat
    decreases lists.len(),
{
    if lists.len() == 0 {
        0
    } else {
        lists_visible_count(lists.drop_last(), g) + visible_count(lists.last().commands@, g)
    }
}

proof fn lemma_draw_count_concat(a: Seq<GlCall>, b: Seq<GlCall>)
    ensures
        draw_count(a + b) == draw_count(a) + draw_count(b),
    decreases b.len(),
{
    if b.len() > 0 {
        lemma_draw_count_concat(a, b.drop_last());
        assert((a + b).drop_last() =~= a + b.drop_last());
    } else {
        assert(a + b =~= a);
    }
}

proof fn lemma_no_draws(calls: Seq<GlCall>)
    requires
        forall|i: int| 0 <= i < calls.len() ==> !is_draw(#[trigger] calls[i]),
    ensures
        draw_count(calls) == 0,
    decreases calls.len(),
{
    if calls.len() > 0 {
        let rest = calls.drop_last();
        assert forall|i: int| 0 <= i < rest.len() implies !is_draw(#[trigger] rest[i]) by {
            assert(rest[i] == calls[i]);
        }
        lemma_no_draws(rest);
    }
}

proof fn lemma_single_draw_count(c: GlCall)
    ensures
        draw_count(seq![c]) == if is_draw(c) {
            1nat
        } else {
            0nat
        },
{
    assert(seq![c].drop_last() =~= Seq::<GlCall>::empty());
    assert(draw_count(Seq::<GlCall>::empty()) == 0);
    assert(seq![c].last() == c);
}

proof fn lemma_commands_draw_count(cmds: Seq<DrawCommand>, g: FrameGeometry)
    ensures
        draw_count(commands_calls(cmds, g)) == visible_count(cmds, g),
    decreases cmds.len(),
{
    if cmds.len() > 0 {
        let cmd = cmds.last();
        lemma_commands_draw_count(cmds.drop_last(), g);
        lemma_draw_count_concat(commands_calls(cmds.drop_last(), g), command_calls(cmd, g));
        if is_visible(cmd.clip_rect, g) {
            let c = command_calls(cmd, g);
            let head = seq![c[0], c[1]];
            let draw = seq![c[2]];
            assert(c =~= head + draw);
            lemma_draw_count_concat(head, draw);
            lemma_no_draws(head);
            lemma_single_draw_count(c[2]);
        } else {
            assert(draw_count(Seq::<GlCall>::empty()) == 0);
        }
    }
}

proof fn lemma_lists_draw_count(lists: Seq<DrawList>, first: int, g: FrameGeometry)
    ensures
        draw_count(lists_calls(lists, first, g)) == lists_visible_count(lists, g),
    decreases lists.len(),
{
    if lists.len() > 0 {
        let last = lists.last();
        let payload = first + 2 * (lists.len() - 1);
        let whole = list_calls(last, payload, g);
        let uploads = whole.subrange(0, 2);
        assert(whole =~= uploads + commands_calls(last.commands@, g));
        lemma_no_draws(uploads);
        lemma_lists_draw_count(lists.drop_last(), first, g);
        lemma_commands_draw_count(last.commands@, g);
        lemma_draw_count_concat(uploads, commands_calls(last.commands@, g));
        lemma_draw_count_concat(lists_calls(lists.drop_last(), first, g), whole);
    }
}

/// A frame issues exactly one draw for each command whose clip rectangle
/// reaches the framebuffer, and none for the culled ones.
pub proof fn lemma_frame_draws_visible_commands(renderer: UiRenderer, frame: DrawFrame, first: int)
    ensures
        draw_count(renderer.frame_calls(frame, first)) == lists_visible_count(frame.lists@, frame.geometry),
{
    let start = renderer.frame_start_calls(frame.geometry, first);
    let body = lists_calls(frame.lists@, first + 1, frame.geometry);
    let state = ui_state_calls();
    let setup = start.subrange(8, 16);
    assert(start =~= state + setup);
    lemma_no_draws(state);
    lemma_no_draws(setup);
    lemma_draw_count_concat(state, setup);
    lemma_no_draws(restore_calls());
    lemma_lists_draw_count(frame.lists@, first + 1, frame.geometry);
    lemma_draw_count_concat(start, body);
    lemma_draw_count_concat(start + body, restore_calls());
}

} // verus!
