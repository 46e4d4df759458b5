//! Verified core of a Vulkan renderer: the decisions and data layouts that the
//! renderer computes between its calls into the GPU driver, the windowing system
//! and the asset loaders.

mod text;
pub mod geometry;
pub mod scene;
pub mod pixels;
pub mod textures;
pub mod gui_pass;
pub mod device;
pub mod swapchain;
pub mod log_ring;
pub mod camera;
pub mod sbt;
pub mod names;
pub mod model;
pub mod render_pass;
pub mod frame;
pub mod descriptors;
pub mod gui_pipeline;
pub mod shader;
pub mod event_loop;
pub mod version;
