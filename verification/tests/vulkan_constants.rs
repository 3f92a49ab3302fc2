use ash::vk;
use triangle::device_select::SWAPCHAIN_EXTENSION;
use triangle::instance::VALIDATION_LAYER;
use triangle::vk as raw;

#[test]
fn enum_constants_match_ash() {
    assert_eq!(raw::FORMAT_B8G8R8A8_SRGB, vk::Format::B8G8R8A8_SRGB.as_raw());
    assert_eq!(raw::PRESENT_MODE_MAILBOX, vk::PresentModeKHR::MAILBOX.as_raw());
    assert_eq!(raw::PRESENT_MODE_FIFO, vk::PresentModeKHR::FIFO.as_raw());
    assert_eq!(raw::SHARING_MODE_EXCLUSIVE, vk::SharingMode::EXCLUSIVE.as_raw());
    assert_eq!(raw::IMAGE_VIEW_TYPE_2D, vk::ImageViewType::TYPE_2D.as_raw());
    assert_eq!(raw::COMPONENT_SWIZZLE_IDENTITY, vk::ComponentSwizzle::IDENTITY.as_raw());
    assert_eq!(raw::IMAGE_LAYOUT_UNDEFINED, vk::ImageLayout::UNDEFINED.as_raw());
    assert_eq!(raw::IMAGE_LAYOUT_COLOR_ATTACHMENT_OPTIMAL, vk::ImageLayout::COLOR_ATTACHMENT_OPTIMAL.as_raw());
    assert_eq!(raw::IMAGE_LAYOUT_PRESENT_SRC, vk::ImageLayout::PRESENT_SRC_KHR.as_raw());
    assert_eq!(raw::ATTACHMENT_LOAD_OP_CLEAR, vk::AttachmentLoadOp::CLEAR.as_raw());
    assert_eq!(raw::ATTACHMENT_STORE_OP_STORE, vk::AttachmentStoreOp::STORE.as_raw());
    assert_eq!(raw::PIPELINE_BIND_POINT_GRAPHICS, vk::PipelineBindPoint::GRAPHICS.as_raw());
    assert_eq!(raw::DYNAMIC_STATE_VIEWPORT, vk::DynamicState::VIEWPORT.as_raw());
    assert_eq!(raw::DYNAMIC_STATE_SCISSOR, vk::DynamicState::SCISSOR.as_raw());
    assert_eq!(raw::PRIMITIVE_TOPOLOGY_TRIANGLE_LIST, vk::PrimitiveTopology::TRIANGLE_LIST.as_raw());
    assert_eq!(raw::POLYGON_MODE_FILL, vk::PolygonMode::FILL.as_raw());
    assert_eq!(raw::FRONT_FACE_CLOCKWISE, vk::FrontFace::CLOCKWISE.as_raw());
}

#[test]
fn flag_constants_match_ash() {
    assert_eq!(raw::QUEUE_GRAPHICS_BIT, vk::QueueFlags::GRAPHICS.as_raw());
    assert_eq!(raw::IMAGE_USAGE_COLOR_ATTACHMENT, vk::ImageUsageFlags::COLOR_ATTACHMENT.as_raw());
    assert_eq!(raw::COMPOSITE_ALPHA_OPAQUE, vk::CompositeAlphaFlagsKHR::OPAQUE.as_raw());
    assert_eq!(raw::IMAGE_ASPECT_COLOR, vk::ImageAspectFlags::COLOR.as_raw());
    assert_eq!(raw::ACCESS2_NONE, vk::AccessFlags2::empty().as_raw());
    assert_eq!(raw::ACCESS2_COLOR_ATTACHMENT_WRITE, vk::AccessFlags2::COLOR_ATTACHMENT_WRITE.as_raw());
    assert_eq!(raw::STAGE2_COLOR_ATTACHMENT_OUTPUT, vk::PipelineStageFlags2::COLOR_ATTACHMENT_OUTPUT.as_raw());
    assert_eq!(raw::STAGE2_BOTTOM_OF_PIPE, vk::PipelineStageFlags2::BOTTOM_OF_PIPE.as_raw());
    assert_eq!(raw::STAGE_COLOR_ATTACHMENT_OUTPUT, vk::PipelineStageFlags::COLOR_ATTACHMENT_OUTPUT.as_raw());
    assert_eq!(raw::QUEUE_FAMILY_IGNORED, vk::QUEUE_FAMILY_IGNORED);
    assert_eq!(raw::CULL_MODE_BACK, vk::CullModeFlags::BACK.as_raw());
    assert_eq!(raw::SAMPLE_COUNT_1, vk::SampleCountFlags::TYPE_1.as_raw());
    assert_eq!(raw::COLOR_COMPONENT_RGBA, vk::ColorComponentFlags::RGBA.as_raw());
    assert_eq!(raw::COMMAND_POOL_RESET_COMMAND_BUFFER, vk::CommandPoolCreateFlags::RESET_COMMAND_BUFFER.as_raw());
    assert_eq!(raw::SHADER_STAGE_VERTEX, vk::ShaderStageFlags::VERTEX.as_raw());
    assert_eq!(raw::SHADER_STAGE_FRAGMENT, vk::ShaderStageFlags::FRAGMENT.as_raw());
    assert_eq!(raw::FENCE_CREATE_SIGNALED, vk::FenceCreateFlags::SIGNALED.as_raw());
}

#[test]
fn extension_and_layer_names_match() {
    assert_eq!(ash::khr::swapchain::NAME.to_str().unwrap(), SWAPCHAIN_EXTENSION);
    assert_eq!(VALIDATION_LAYER, "VK_LAYER_KHRONOS_validation");
}
