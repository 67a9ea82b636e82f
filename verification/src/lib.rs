//! Verified core of an immediate-mode UI renderer: the texture atlas
//! bookkeeping and the per-frame batching of clipped meshes into one
//! indirect multi-draw submission.

pub mod atlas;
pub mod frame;
pub mod gl;
pub mod input;
pub mod patterns;
pub mod profiler;
pub mod scissor;
pub mod utils;
pub mod window;
