//! Verified core of a real-time shader-preview tool.
//!
//! The crate models the logic of a single-window raymarching shader
//! previewer: the mutable render settings edited through a GUI panel, the
//! shader-program build protocol and its error taxonomy, the uniform pushes
//! the render engine performs each frame, the scoped program-binding
//! discipline, and the event-loop controller with its frame pacing. The
//! GPU, windowing and GUI toolkit calls themselves live in the surrounding
//! application; everything they are driven by is decided and proved here.

pub mod controller;
pub mod renderer;
pub mod shader;
pub mod state;
pub mod ui;
