//! The frame lifecycle and GPU resource bookkeeping of a small renderer.

pub mod batch;
pub mod binding;
pub mod frame_proofs;
pub mod pipelines;
pub mod scratch;
pub mod signal;
pub mod texture;
pub mod utils;
pub mod vk_renderer;

pub use self::vk_renderer::VkRenderer;
