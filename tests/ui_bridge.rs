use typed_gl::gl::buffer::BufferId;
use typed_gl::gl::context::{Context, GlCall};
use typed_gl::gl::program::{ProgramId, UniformLocation};
use typed_gl::gl::sys;
use typed_gl::gl::texture::TextureId;
use typed_gl::gl::vertex_array::VertexArrayId;
use typed_gl::program::Program;
use typed_gl::ui_renderer::{
    take_chars, ClipRect, DrawCommand, DrawFrame, DrawList, FrameGeometry, UiRenderer,
};

fn renderer(ctx: &mut Context) -> UiRenderer {
    let program = Program::from_link_status(ctx, ProgramId::from_raw(10), true, None).unwrap();
    UiRenderer::new(
        ctx,
        program,
        BufferId::from_raw(1),
        BufferId::from_raw(2),
        VertexArrayId::from_raw(3),
        UniformLocation::from_raw(4),
        UniformLocation::from_raw(5),
        20,
    )
}

fn geometry() -> FrameGeometry {
    FrameGeometry { display_x: 0, display_y: 0, display_width: 500, display_height: 400, index_width: 2 }
}

fn command(x1: i32, y1: i32, x2: i32, y2: i32) -> DrawCommand {
    DrawCommand { count: 6, clip_rect: ClipRect { x1, y1, x2, y2 }, texture_id: TextureId::from_raw(9), vtx_offset: 4, idx_offset: 3 }
}

fn frame(commands: Vec<DrawCommand>) -> DrawFrame {
    DrawFrame {
        geometry: geometry(),
        lists: vec![DrawList { vertices: vec![1, 2, 3], indices: vec![4, 5], commands }],
    }
}

#[test]
fn init_sets_up_the_vertex_layout() {
    let mut ctx = Context::new();
    renderer(&mut ctx);
    let calls = ctx.calls();
    assert_eq!(calls.len(), 13);
    assert_eq!(calls[0], GlCall::BindBuffer { target: sys::ARRAY_BUFFER, buffer: 1 });
    assert_eq!(calls[2], GlCall::UseProgram { program: 10 });
    assert_eq!(
        calls[9],
        GlCall::VertexAttribPointer {
            index: 2,
            size: 4,
            component_type: sys::UNSIGNED_BYTE,
            normalized: true,
            stride: 20,
            offset: 16,
        }
    );
    assert_eq!(calls[12], GlCall::BindBuffer { target: sys::ELEMENT_ARRAY_BUFFER, buffer: 0 });
}

#[test]
fn command_left_of_the_framebuffer_is_culled() {
    let mut ctx = Context::new();
    let r = renderer(&mut ctx);
    ctx.clear();
    r.render(&mut ctx, &frame(vec![command(-50, 10, -10, 40)]), vec![0; 64]);
    assert_eq!(ctx.draw_call_count(), 0);
    assert!(!ctx.calls().iter().any(|c| matches!(c, GlCall::Scissor { .. } | GlCall::BindTexture { .. })));
}

#[test]
fn commands_outside_any_edge_are_culled() {
    let mut ctx = Context::new();
    let r = renderer(&mut ctx);
    ctx.clear();
    let commands = vec![
        command(10, -60, 50, -1),
        command(500, 10, 600, 40),
        command(10, 400, 50, 450),
    ];
    r.render(&mut ctx, &frame(commands), vec![0; 64]);
    assert_eq!(ctx.draw_call_count(), 0);
}

#[test]
fn visible_command_gets_a_flipped_scissor_and_one_draw() {
    let mut ctx = Context::new();
    let r = renderer(&mut ctx);
    ctx.clear();
    r.render(&mut ctx, &frame(vec![command(10, 20, 110, 70), command(-50, 10, -10, 40)]), vec![7; 64]);
    assert_eq!(ctx.draw_call_count(), 1);
    let calls = ctx.calls();
    let start = calls.iter().position(|c| matches!(c, GlCall::BufferData { .. })).unwrap();
    assert_eq!(
        calls[start..start + 5].to_vec(),
        vec![
            GlCall::BufferData { target: sys::ARRAY_BUFFER, payload: 1, usage: sys::STREAM_DRAW },
            GlCall::BufferData { target: sys::ELEMENT_ARRAY_BUFFER, payload: 2, usage: sys::STREAM_DRAW },
            GlCall::Scissor { x: 10, y: 330, width: 100, height: 50 },
            GlCall::BindTexture { target: sys::TEXTURE_2D, texture: 9 },
            GlCall::DrawElementsBaseVertex {
                mode: sys::TRIANGLES,
                count: 6,
                index_type: sys::UNSIGNED_SHORT,
                offset: 6,
                base_vertex: 4,
            },
        ]
    );
    assert_eq!(ctx.payload(0), Some(&vec![7; 64]));
    assert_eq!(ctx.payload(1), Some(&vec![1, 2, 3]));
    assert_eq!(ctx.payload(2), Some(&vec![4, 5]));
}

#[test]
fn frame_sets_ui_state_and_restores_culling() {
    let mut ctx = Context::new();
    let r = renderer(&mut ctx);
    ctx.clear();
    r.render(&mut ctx, &frame(vec![]), vec![0; 64]);
    let calls = ctx.calls();
    assert_eq!(calls.len(), 16 + 2 + 3);
    assert_eq!(calls[0], GlCall::Enable { capability: sys::BLEND });
    assert_eq!(calls[8], GlCall::Viewport { x: 0, y: 0, width: 500, height: 400 });
    assert_eq!(calls[10], GlCall::Uniform1i { location: 5, value: 0 });
    assert_eq!(calls[11], GlCall::UniformMatrix4 { location: 4, transposed: false, payload: 0 });
    assert_eq!(
        calls[calls.len() - 3..].to_vec(),
        vec![
            GlCall::Disable { capability: sys::BLEND },
            GlCall::Enable { capability: sys::CULL_FACE },
            GlCall::Disable { capability: sys::SCISSOR_TEST },
        ]
    );
}

#[test]
fn empty_frame_draws_nothing() {
    let mut ctx = Context::new();
    let r = renderer(&mut ctx);
    ctx.clear();
    let empty = DrawFrame { geometry: geometry(), lists: vec![] };
    r.render(&mut ctx, &empty, vec![0; 64]);
    assert_eq!(ctx.draw_call_count(), 0);
    assert_eq!(ctx.calls().len(), 16 + 3);
}

#[test]
fn each_list_uploads_into_the_shared_buffers() {
    let mut ctx = Context::new();
    let r = renderer(&mut ctx);
    ctx.clear();
    let two = DrawFrame {
        geometry: geometry(),
        lists: vec![
            DrawList { vertices: vec![1], indices: vec![2], commands: vec![command(0, 0, 10, 10)] },
            DrawList { vertices: vec![3], indices: vec![4], commands: vec![command(0, 0, 10, 10)] },
        ],
    };
    r.render(&mut ctx, &two, vec![0; 64]);
    assert_eq!(ctx.draw_call_count(), 2);
    assert_eq!(ctx.payload(3), Some(&vec![3]));
    assert_eq!(ctx.payload(4), Some(&vec![4]));
}

#[test]
fn prepared_characters_are_drained() {
    let mut chars = vec!['a', 'b', 'c'];
    let taken = take_chars(&mut chars);
    assert_eq!(taken, vec!['a', 'b', 'c']);
    assert!(chars.is_empty());
    assert!(take_chars(&mut chars).is_empty());
}

#[test]
fn clip_rect_starting_off_the_framebuffer_keeps_its_box() {
    let mut ctx = Context::new();
    let r = renderer(&mut ctx);
    ctx.clear();
    let small = DrawFrame {
        geometry: FrameGeometry { display_x: 0, display_y: 0, display_width: 100, display_height: 100, index_width: 2 },
        lists: vec![DrawList {
            vertices: vec![],
            indices: vec![],
            commands: vec![command(-10, 20, 50, 40), command(10, 90, 30, 130)],
        }],
    };
    r.render(&mut ctx, &small, vec![0; 64]);
    let scissors: Vec<GlCall> = ctx.calls().iter().copied().filter(|c| matches!(c, GlCall::Scissor { .. })).collect();
    assert_eq!(
        scissors,
        vec![
            GlCall::Scissor { x: -10, y: 60, width: 60, height: 20 },
            GlCall::Scissor { x: 10, y: -30, width: 20, height: 40 },
        ]
    );
    assert_eq!(ctx.draw_call_count(), 2);
}

#[test]
fn negative_display_origin_reaches_the_viewport() {
    let mut ctx = Context::new();
    let r = renderer(&mut ctx);
    ctx.clear();
    let shifted = DrawFrame {
        geometry: FrameGeometry { display_x: -5, display_y: -7, display_width: 100, display_height: 80, index_width: 4 },
        lists: vec![],
    };
    r.render(&mut ctx, &shifted, vec![0; 64]);
    assert_eq!(ctx.calls()[8], GlCall::Viewport { x: -5, y: -7, width: 100, height: 80 });
}

#[test]
fn renderer_delete_releases_its_objects() {
    let mut ctx = Context::new();
    let r = renderer(&mut ctx);
    ctx.clear();
    r.delete(&mut ctx);
    assert_eq!(
        ctx.calls(),
        &vec![
            GlCall::DeleteProgram { program: 10 },
            GlCall::DeleteBuffer { buffer: 1 },
            GlCall::DeleteBuffer { buffer: 2 },
            GlCall::DeleteVertexArray { vertex_array: 3 },
        ]
    );
}
