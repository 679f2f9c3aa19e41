//! A drawable GPU object: vertex-array, vertex-buffer and index-buffer handles,
//! a draw topology and a shared shader program.
//!
//! The library decides which graphics calls each operation issues, in which
//! order and with which arguments, and hands them back as [`GlCall`] values.
//! The caller owns the graphics context and runs them.
pub mod call;
pub mod gl_object;
pub mod vertex;

pub use call::{BufferTarget, GlCall};
pub use gl_object::{allocation, Allocation, DrawingMode, GlOject, Handles, ObjectModel};
pub use vertex::{VertexBuffer, VertexDesc, Vertices};
