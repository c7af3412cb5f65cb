//! kaffee: a small 2D framework that batches quads into few GPU submissions.
//!
//! The library holds the logic of the renderer: how quads are accumulated into a
//! fixed-capacity vertex buffer, the shared quad index buffer, how the batches of
//! a frame are laid out in the vertex buffer and drawn, texture pixel data, atlas
//! regions, and the decisions taken when the surface cannot be acquired.
//! Talking to the GPU, the window and the file system is left to the caller.
pub mod atlas;
pub mod batch;
pub mod color;
pub mod config;
pub mod error;
pub mod event;
pub mod geometry;
pub mod input;
pub mod pipeline;
pub mod surface;
pub mod texture;

pub use atlas::TextureAtlas;
pub use batch::BatchContext;
pub use color::Color;
pub use config::Config;
pub use error::{ErrorKind, GfxErrorKind};
pub use event::{loop_action, LoopAction, WindowSignal};
pub use geometry::{Rect, Vertex, UV_ONE};
pub use input::{InputEvent, KeyEvent, KeyState};
pub use pipeline::{
    check_upload, plan_draws, quad_indices, DrawCall, ShaderStage, MAX_INDEX_COUNT, MAX_QUAD_COUNT, MAX_VERTEX_COUNT,
};
pub use surface::{frame_step, preferred_format, FrameStep, SurfaceStatus, Viewport};
pub use texture::{FilterMode, Texture};
