use typed_gl::gl::buffer::{self, BufferId};
use typed_gl::gl::context::{Context, GlCall};
use typed_gl::gl::program::{self as gl_program, ProgramId};
use typed_gl::gl::shader::{self as gl_shader, ShaderId};
use typed_gl::gl::sys::RawHandle;
use typed_gl::gl::vertex_array::{self, VertexArrayId};

#[test]
fn deleting_generated_buffers_nulls_them_and_twice_is_a_no_op() {
    let mut ctx = Context::new();
    let mut ids = buffer::gen_buffers(&vec![1, 2, 3]);
    assert_eq!(ids.iter().map(|b| b.raw_handle()).collect::<Vec<_>>(), vec![1, 2, 3]);
    buffer::delete_buffers(&mut ctx, &mut ids);
    assert!(ids.iter().all(|b| b.raw_handle() == 0));
    assert_eq!(
        ctx.calls(),
        &vec![
            GlCall::DeleteBuffer { buffer: 1 },
            GlCall::DeleteBuffer { buffer: 2 },
            GlCall::DeleteBuffer { buffer: 3 },
        ]
    );
    buffer::delete_buffers(&mut ctx, &mut ids);
    assert_eq!(ctx.calls().len(), 3);
    assert!(ids.iter().all(|b| *b == buffer::no_buffer()));
}

#[test]
fn deleting_a_list_with_null_entries_skips_them() {
    let mut ctx = Context::new();
    let mut ids = vec![BufferId::from_raw(4), buffer::no_buffer(), BufferId::from_raw(6)];
    buffer::delete_buffers(&mut ctx, &mut ids);
    assert_eq!(
        ctx.calls(),
        &vec![GlCall::DeleteBuffer { buffer: 4 }, GlCall::DeleteBuffer { buffer: 6 }]
    );
}

#[test]
fn deleting_an_empty_buffer_list_records_nothing() {
    let mut ctx = Context::new();
    let mut ids: Vec<BufferId> = Vec::new();
    buffer::delete_buffers(&mut ctx, &mut ids);
    assert!(ctx.calls().is_empty());
}

#[test]
fn single_buffer_delete_is_idempotent() {
    let mut ctx = Context::new();
    let mut id = BufferId::from_raw(5);
    buffer::delete_buffer(&mut ctx, &mut id);
    assert_eq!(id.raw_handle(), 0);
    buffer::delete_buffer(&mut ctx, &mut id);
    assert_eq!(ctx.calls(), &vec![GlCall::DeleteBuffer { buffer: 5 }]);
}

#[test]
fn vertex_array_delete_is_idempotent() {
    let mut ctx = Context::new();
    let mut ids = vertex_array::gen_vertex_arrays(&vec![8]);
    vertex_array::delete_vertex_array(&mut ctx, &mut ids[0]);
    vertex_array::delete_vertex_array(&mut ctx, &mut ids[0]);
    assert_eq!(ids[0], vertex_array::no_vertex_array());
    assert_eq!(ctx.calls(), &vec![GlCall::DeleteVertexArray { vertex_array: 8 }]);
    let mut none = VertexArrayId::from_raw(0);
    vertex_array::delete_vertex_array(&mut ctx, &mut none);
    assert_eq!(ctx.calls().len(), 1);
}

#[test]
fn shader_and_program_deletes_are_idempotent() {
    let mut ctx = Context::new();
    let mut shader = ShaderId::from_raw(2);
    gl_shader::delete_shader(&mut ctx, &mut shader);
    gl_shader::delete_shader(&mut ctx, &mut shader);
    let mut program = ProgramId::from_raw(3);
    gl_program::delete_program(&mut ctx, &mut program);
    gl_program::delete_program(&mut ctx, &mut program);
    assert_eq!(shader.raw_handle(), 0);
    assert_eq!(program, gl_program::no_program());
    assert_eq!(
        ctx.calls(),
        &vec![GlCall::DeleteShader { shader: 2 }, GlCall::DeleteProgram { program: 3 }]
    );
}

#[test]
fn context_clear_forgets_everything() {
    let mut ctx = Context::new();
    buffer::buffer_data(&mut ctx, buffer::array_buffer(), vec![1, 2], buffer::static_draw());
    gl_shader::shader_source(&mut ctx, ShaderId::from_raw(1), "void main() {}");
    ctx.clear();
    assert!(ctx.calls().is_empty());
    assert!(ctx.payload(0).is_none());
    assert!(ctx.source(0).is_none());
}
