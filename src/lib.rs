//! Typed graphics-API handles, resource lifecycles, the shader and program
//! build pipeline, and the conversion of an immediate-mode UI's draw lists
//! into graphics-API calls.
pub mod gl;
pub mod resources;
pub mod shader;
pub mod program;
pub mod texture;
pub mod ui_renderer;
