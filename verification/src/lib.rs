//! Geepu — an ergonomic convenience layer over a low-level GPU API.
//!
//! The library models GPU resources (buffers, textures, bind groups,
//! pipelines) and command recording as plain data with verified invariants:
//! capacity checks on buffer writes, size validation on texture uploads,
//! bind-group/layout agreement, dispatch-size arithmetic, stage-qualified
//! shader registries and the pass/submission state machine. Driver work
//! (device negotiation, queue execution, presentation) is performed by the
//! embedding application, which drains the queued writes and submitted
//! command buffers that this crate accumulates.

pub mod buffer;
pub mod compute;
pub mod config;
pub mod context;
pub mod error;
pub mod patterns;
pub mod pipeline;
pub mod registry;
pub mod render;
pub mod renderer;
pub mod resources;
pub mod shaders;
pub mod texture;

pub use buffer::{StagingBuffer, TypedBuffer, VertexBufferBuilder, VertexFormat};
pub use config::{GpuConfig, Size, WindowConfig};
pub use context::GpuContext;
pub use error::{GeepuError, GeepuResult};
pub use pipeline::{BindGroupBuilder, BindGroupLayoutBuilder};
pub use render::{RenderCommands, RenderTarget};
pub use renderer::{RenderPassGuard, Renderer};
pub use resources::{StorageBuffer, TextureResource, UniformBuffer};
pub use shaders::{ComputePipeline, ShaderManager};
pub use texture::Texture;
