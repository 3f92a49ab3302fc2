//! The raw numbers of the Vulkan enumerants and flag bits that the renderer
//! uses.  Each equals the `as_raw()` value of the `ash::vk` constant of the
//! same name.
use vstd::prelude::*;

verus! {

/// `vk::Format::B8G8R8A8_SRGB`.
pub const FORMAT_B8G8R8A8_SRGB: i32 = 50;

/// `vk::PresentModeKHR::MAILBOX`.
pub const PRESENT_MODE_MAILBOX: i32 = 1;

/// `vk::PresentModeKHR::FIFO`, which every Vulkan surface supports.
pub const PRESENT_MODE_FIFO: i32 = 2;

/// `vk::QueueFlags::GRAPHICS`.
pub const QUEUE_GRAPHICS_BIT: u32 = 0x1;

/// `vk::ImageUsageFlags::COLOR_ATTACHMENT`.
pub const IMAGE_USAGE_COLOR_ATTACHMENT: u32 = 0x10;

/// `vk::SharingMode::EXCLUSIVE`.
pub const SHARING_MODE_EXCLUSIVE: i32 = 0;

/// `vk::CompositeAlphaFlagsKHR::OPAQUE`.
pub const COMPOSITE_ALPHA_OPAQUE: u32 = 0x1;

/// `vk::ImageViewType::TYPE_2D`.
pub const IMAGE_VIEW_TYPE_2D: i32 = 1;

/// `vk::ComponentSwizzle::IDENTITY`.
pub const COMPONENT_SWIZZLE_IDENTITY: i32 = 0;

/// `vk::ImageAspectFlags::COLOR`.
pub const IMAGE_ASPECT_COLOR: u32 = 0x1;

/// `vk::ImageLayout::UNDEFINED`.
pub const IMAGE_LAYOUT_UNDEFINED: i32 = 0;

/// `vk::ImageLayout::COLOR_ATTACHMENT_OPTIMAL`.
pub const IMAGE_LAYOUT_COLOR_ATTACHMENT_OPTIMAL: i32 = 2;

/// `vk::ImageLayout::PRESENT_SRC_KHR`.
pub const IMAGE_LAYOUT_PRESENT_SRC: i32 = 1000001002;

/// `vk::AccessFlags2::empty()`.
pub const ACCESS2_NONE: u64 = 0;

/// `vk::AccessFlags2::COLOR_ATTACHMENT_WRITE`.
pub const ACCESS2_COLOR_ATTACHMENT_WRITE: u64 = 0x100;

/// `vk::PipelineStageFlags2::COLOR_ATTACHMENT_OUTPUT`.
pub const STAGE2_COLOR_ATTACHMENT_OUTPUT: u64 = 0x400;

/// `vk::PipelineStageFlags2::BOTTOM_OF_PIPE`.
pub const STAGE2_BOTTOM_OF_PIPE: u64 = 0x2000;

/// `vk::PipelineStageFlags::COLOR_ATTACHMENT_OUTPUT`.
pub const STAGE_COLOR_ATTACHMENT_OUTPUT: u32 = 0x400;

/// `vk::QUEUE_FAMILY_IGNORED`.
pub const QUEUE_FAMILY_IGNORED: u32 = 0xffff_ffff;

/// `vk::AttachmentLoadOp::CLEAR`.
pub const ATTACHMENT_LOAD_OP_CLEAR: i32 = 1;

/// `vk::AttachmentStoreOp::STORE`.
pub const ATTACHMENT_STORE_OP_STORE: i32 = 0;

/// `vk::PipelineBindPoint::GRAPHICS`.
pub const PIPELINE_BIND_POINT_GRAPHICS: i32 = 0;

/// `vk::DynamicState::VIEWPORT`.
pub const DYNAMIC_STATE_VIEWPORT: i32 = 0;

/// `vk::DynamicState::SCISSOR`.
pub const DYNAMIC_STATE_SCISSOR: i32 = 1;

/// `vk::PrimitiveTopology::TRIANGLE_LIST`.
pub const PRIMITIVE_TOPOLOGY_TRIANGLE_LIST: i32 = 3;

/// `vk::PolygonMode::FILL`.
pub const POLYGON_MODE_FILL: i32 = 0;

/// `vk::CullModeFlags::BACK`.
pub const CULL_MODE_BACK: u32 = 0x2;

/// `vk::FrontFace::CLOCKWISE`.
pub const FRONT_FACE_CLOCKWISE: i32 = 1;

/// `vk::SampleCountFlags::TYPE_1`.
pub const SAMPLE_COUNT_1: u32 = 0x1;

/// `vk::ColorComponentFlags::RGBA`.
pub const COLOR_COMPONENT_RGBA: u32 = 0xf;

/// `vk::CommandPoolCreateFlags::RESET_COMMAND_BUFFER`.
pub const COMMAND_POOL_RESET_COMMAND_BUFFER: u32 = 0x2;

/// `vk::ShaderStageFlags::VERTEX`.
pub const SHADER_STAGE_VERTEX: u32 = 0x1;

/// `vk::ShaderStageFlags::FRAGMENT`.
pub const SHADER_STAGE_FRAGMENT: u32 = 0x10;

/// `vk::FenceCreateFlags::SIGNALED`.
pub const FENCE_CREATE_SIGNALED: u32 = 0x1;

} // verus!
