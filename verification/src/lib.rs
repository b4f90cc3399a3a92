//! A textured, animated quad, described exactly.
//!
//! The crate holds everything about the scene that can be decided from plain
//! values: the quad's geometry and its packed vertex layout, the texture
//! image and its row order, the shader assets and the handling of their build
//! status, the order in which the graphics objects are created, and the
//! frame loop's states. A program that owns a window and a graphics context
//! carries the instructions out.

pub mod frame;
pub mod layout;
pub mod mesh;
pub mod ratio;
pub mod setup;
pub mod shader;
pub mod texture;
pub mod window;
