//! The decisions of the Vulkan and winit backend: which memory type, which swapchain
//! settings, which frame resources, and in which order the device work is issued.
pub mod memory;
pub mod swapchain;
pub mod submit;
pub mod frame;
pub mod assets;
