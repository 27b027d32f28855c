//! The verified core of a small real-time shader viewer.
//!
//! Everything that decides something lives here and is proved against its
//! contract: the uniform values and their byte images, the quad's geometry
//! and vertex layout, the fixed-function pipeline state, and the render
//! state with its reactions to window events, frame results and shader
//! reloads. Talking to the window system and to the GPU is left to the
//! program around this library, which performs the actions decided here.

pub mod bindings;
pub mod config;
pub mod event;
pub mod geometry;
pub mod laws;
pub mod pipeline;
pub mod state;
pub mod uniforms;
