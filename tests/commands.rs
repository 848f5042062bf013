use typed_gl::gl::buffer::{self, BufferId};
use typed_gl::gl::capabilities;
use typed_gl::gl::context::{Context, GlCall};
use typed_gl::gl::program::{self as gl_program, FloatBits, ProgramId, UniformLocation};
use typed_gl::gl::rendering;
use typed_gl::gl::shader::{self as gl_shader, ShaderId};
use typed_gl::gl::state;
use typed_gl::gl::sys;
use typed_gl::gl::vertex_array::{self, VertexArrayId};
use typed_gl::gl::vertex_attrib;

#[test]
fn clear_color_splits_the_packed_channels() {
    let mut ctx = Context::new();
    rendering::clear_color(&mut ctx, 0xFF000000);
    rendering::clear_color(&mut ctx, 0x80FF4020);
    assert_eq!(
        ctx.calls(),
        &vec![
            GlCall::ClearColor { red: 0, green: 0, blue: 0, alpha: 0xFF },
            GlCall::ClearColor { red: 0xFF, green: 0x40, blue: 0x20, alpha: 0x80 },
        ]
    );
}

#[test]
fn clear_and_draw_arrays_record_their_arguments() {
    let mut ctx = Context::new();
    rendering::clear(&mut ctx, rendering::color() | rendering::depth());
    rendering::draw_arrays(&mut ctx, rendering::triangles(), 0, 3);
    assert_eq!(
        ctx.calls(),
        &vec![
            GlCall::Clear { mask: 0x4100 },
            GlCall::DrawArrays { mode: sys::TRIANGLES, first: 0, count: 3 },
        ]
    );
    assert_eq!(ctx.draw_call_count(), 1);
}

#[test]
fn index_width_picks_the_index_type() {
    assert_eq!(rendering::index_type(2), sys::UNSIGNED_SHORT);
    assert_eq!(rendering::index_type(4), sys::UNSIGNED_INT);
    assert_eq!(rendering::index_type(1), sys::UNSIGNED_INT);
    let mut ctx = Context::new();
    rendering::draw_elements_base_vertex(&mut ctx, rendering::triangles(), 6, 2, 12, 4);
    assert_eq!(
        ctx.calls(),
        &vec![GlCall::DrawElementsBaseVertex {
            mode: sys::TRIANGLES,
            count: 6,
            index_type: sys::UNSIGNED_SHORT,
            offset: 12,
            base_vertex: 4,
        }]
    );
}

#[test]
fn buffer_data_keeps_the_bytes_as_a_payload() {
    let mut ctx = Context::new();
    buffer::bind_buffer(&mut ctx, buffer::array_buffer(), BufferId::from_raw(2));
    buffer::buffer_data(&mut ctx, buffer::array_buffer(), vec![9, 8, 7], buffer::stream_draw());
    assert_eq!(
        ctx.calls(),
        &vec![
            GlCall::BindBuffer { target: sys::ARRAY_BUFFER, buffer: 2 },
            GlCall::BufferData { target: sys::ARRAY_BUFFER, payload: 0, usage: sys::STREAM_DRAW },
        ]
    );
    assert_eq!(ctx.payload(0), Some(&vec![9, 8, 7]));
    assert_eq!(ctx.payload(1), None);
}

#[test]
fn state_wrappers_record_their_arguments() {
    let mut ctx = Context::new();
    state::viewport(&mut ctx, (0, 0), (500, 400));
    state::scissor(&mut ctx, (1, 2), (3, 4));
    state::blend_equation_separate(&mut ctx, state::func_add(), state::func_subtract());
    state::blend_func_separate(&mut ctx, state::src_alpha(), state::one_minus_src_alpha(), state::one(), state::zero());
    capabilities::enable(&mut ctx, capabilities::depth_test());
    capabilities::disable(&mut ctx, capabilities::stencil_test());
    assert_eq!(
        ctx.calls(),
        &vec![
            GlCall::Viewport { x: 0, y: 0, width: 500, height: 400 },
            GlCall::Scissor { x: 1, y: 2, width: 3, height: 4 },
            GlCall::BlendEquationSeparate { rgb: 0x8006, alpha: 0x800A },
            GlCall::BlendFuncSeparate { src_rgb: 0x0302, dst_rgb: 0x0303, src_alpha: 1, dst_alpha: 0 },
            GlCall::Enable { capability: 0x0B71 },
            GlCall::Disable { capability: 0x0B90 },
        ]
    );
}

#[test]
fn vertex_layout_wrappers_record_their_arguments() {
    let mut ctx = Context::new();
    vertex_array::bind_vertex_array(&mut ctx, VertexArrayId::from_raw(3));
    vertex_attrib::enable_vertex_attrib_array(&mut ctx, 1);
    vertex_attrib::vertex_attrib_pointer(&mut ctx, 1, vertex_attrib::size_3(), vertex_attrib::float(), false, 20, 8);
    vertex_attrib::disable_vertex_attrib_array(&mut ctx, 1);
    assert_eq!(
        ctx.calls(),
        &vec![
            GlCall::BindVertexArray { vertex_array: 3 },
            GlCall::EnableVertexAttribArray { index: 1 },
            GlCall::VertexAttribPointer {
                index: 1,
                size: 3,
                component_type: sys::FLOAT,
                normalized: false,
                stride: 20,
                offset: 8,
            },
            GlCall::DisableVertexAttribArray { index: 1 },
        ]
    );
}

#[test]
fn uniforms_record_scalars_and_matrices() {
    let mut ctx = Context::new();
    let location = UniformLocation::from_raw(5);
    gl_program::uniform(&mut ctx, location, 7i32);
    gl_program::uniform(&mut ctx, location, FloatBits(1.0f32.to_bits()));
    let matrix: Vec<u8> = (0..64).collect();
    gl_program::uniform_matrix4(&mut ctx, location, true, matrix.clone());
    assert_eq!(
        ctx.calls(),
        &vec![
            GlCall::Uniform1i { location: 5, value: 7 },
            GlCall::Uniform1f { location: 5, bits: 0x3F80_0000 },
            GlCall::UniformMatrix4 { location: 5, transposed: true, payload: 0 },
        ]
    );
    assert_eq!(ctx.payload(0), Some(&matrix));
}

#[test]
fn shader_and_program_wrappers_record_their_arguments() {
    let mut ctx = Context::new();
    let shader = ShaderId::from_raw(4);
    let program = ProgramId::from_raw(6);
    gl_shader::shader_source(&mut ctx, shader, "void main() {}");
    gl_shader::compile_shader(&mut ctx, shader);
    gl_program::attach_shader(&mut ctx, program, shader);
    gl_program::link_program(&mut ctx, program);
    gl_program::detach_shader(&mut ctx, program, shader);
    gl_program::use_program(&mut ctx, program);
    assert_eq!(
        ctx.calls(),
        &vec![
            GlCall::ShaderSource { shader: 4, source: 0 },
            GlCall::CompileShader { shader: 4 },
            GlCall::AttachShader { program: 6, shader: 4 },
            GlCall::LinkProgram { program: 6 },
            GlCall::DetachShader { program: 6, shader: 4 },
            GlCall::UseProgram { program: 6 },
        ]
    );
    assert_eq!(ctx.source(0).map(|s| s.as_str()), Some("void main() {}"));
}
