//! A typed layer over the graphics API: each kind of handle and each family of
//! enumerants is a type of its own, and each wrapper records its call on an
//! explicit [`context::Context`].
pub mod sys;
pub mod context;
pub mod buffer;
pub mod capabilities;
pub mod state;
pub mod vertex_array;
pub mod vertex_attrib;
pub mod rendering;
pub mod shader;
pub mod program;
pub mod texture;
