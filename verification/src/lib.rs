//! Verified decision logic of a small Vulkan triangle renderer.
//!
//! The renderer talks to the GPU driver through `ash`; every call that
//! reaches the driver happens outside this library, in the program that
//! drives it.  What the library holds is what the renderer decides: which API version to ask for, which GPU and queue
//! family to use, how the swapchain is configured, which commands a frame
//! records, and in which order a frame waits, acquires, submits and presents.
//! Vulkan handles appear here as their raw 64-bit values and Vulkan enums as
//! their raw numbers.

pub mod version;
pub mod instance;
pub mod vk;
pub mod swapchain;
pub mod device_select;
pub mod spirv;
pub mod commands;
pub mod app;
