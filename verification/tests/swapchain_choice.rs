use triangle::swapchain::{
    choose_present_mode, choose_surface_format, choose_swap_extent, desired_image_count, swapchain_settings,
    Extent2D, SurfaceCapabilities, SurfaceFormat, SwapchainSettings,
};
use triangle::vk::{
    COMPOSITE_ALPHA_OPAQUE, FORMAT_B8G8R8A8_SRGB, IMAGE_USAGE_COLOR_ATTACHMENT, PRESENT_MODE_FIFO,
    PRESENT_MODE_MAILBOX, SHARING_MODE_EXCLUSIVE,
};

const B8G8R8A8_UNORM: i32 = 44;
const R8G8B8A8_SRGB: i32 = 43;
const IMMEDIATE: i32 = 0;

fn fmt(format: i32, color_space: i32) -> SurfaceFormat {
    SurfaceFormat { format, color_space }
}

fn caps(min: u32, max: u32, width: u32, height: u32) -> SurfaceCapabilities {
    SurfaceCapabilities {
        min_image_count: min,
        max_image_count: max,
        current_extent: Extent2D { width, height },
        current_transform: 1,
    }
}

#[test]
fn srgb_format_is_preferred() {
    let formats = vec![fmt(B8G8R8A8_UNORM, 0), fmt(R8G8B8A8_SRGB, 0), fmt(FORMAT_B8G8R8A8_SRGB, 7), fmt(FORMAT_B8G8R8A8_SRGB, 9)];
    assert_eq!(choose_surface_format(&formats), fmt(FORMAT_B8G8R8A8_SRGB, 7));
}

#[test]
fn first_format_when_srgb_missing() {
    let formats = vec![fmt(B8G8R8A8_UNORM, 3), fmt(R8G8B8A8_SRGB, 0)];
    assert_eq!(choose_surface_format(&formats), fmt(B8G8R8A8_UNORM, 3));
    assert_eq!(choose_surface_format(&vec![fmt(FORMAT_B8G8R8A8_SRGB, 1)]), fmt(FORMAT_B8G8R8A8_SRGB, 1));
}

#[test]
fn mailbox_is_preferred() {
    assert_eq!(choose_present_mode(&vec![IMMEDIATE, PRESENT_MODE_FIFO, PRESENT_MODE_MAILBOX]), PRESENT_MODE_MAILBOX);
}

#[test]
fn fifo_when_mailbox_missing() {
    assert_eq!(choose_present_mode(&vec![IMMEDIATE, PRESENT_MODE_FIFO]), PRESENT_MODE_FIFO);
    assert_eq!(choose_present_mode(&vec![]), PRESENT_MODE_FIFO);
}

#[test]
fn extent_follows_surface_or_request() {
    assert_eq!(choose_swap_extent(&caps(2, 0, 800, 600), (1024, 768)), Extent2D { width: 800, height: 600 });
    assert_eq!(choose_swap_extent(&caps(2, 0, u32::MAX, u32::MAX), (1024, 768)), Extent2D { width: 1024, height: 768 });
    // Only the width tells whether the swapchain chooses.
    assert_eq!(choose_swap_extent(&caps(2, 0, u32::MAX, 5), (1, 2)), Extent2D { width: 1, height: 2 });
}

#[test]
fn image_count_is_minimum_plus_one_within_maximum() {
    assert_eq!(desired_image_count(&caps(2, 0, 1, 1)), 3);
    assert_eq!(desired_image_count(&caps(2, 8, 1, 1)), 3);
    assert_eq!(desired_image_count(&caps(3, 3, 1, 1)), 3);
    assert_eq!(desired_image_count(&caps(2, 2, 1, 1)), 2);
    assert_eq!(desired_image_count(&caps(0, 0, 1, 1)), 1);
    assert_eq!(desired_image_count(&caps(u32::MAX - 1, 0, 1, 1)), u32::MAX);
}

#[test]
fn whole_swapchain_settings() {
    let formats = vec![fmt(B8G8R8A8_UNORM, 0), fmt(FORMAT_B8G8R8A8_SRGB, 0)];
    let modes = vec![PRESENT_MODE_FIFO, PRESENT_MODE_MAILBOX];
    let settings = swapchain_settings(77, &formats, &modes, &caps(2, 3, u32::MAX, 0), (1024, 768));
    assert_eq!(
        settings,
        SwapchainSettings {
            surface: 77,
            min_image_count: 3,
            image_format: FORMAT_B8G8R8A8_SRGB,
            image_color_space: 0,
            image_extent: Extent2D { width: 1024, height: 768 },
            image_array_layers: 1,
            image_usage: IMAGE_USAGE_COLOR_ATTACHMENT,
            image_sharing_mode: SHARING_MODE_EXCLUSIVE,
            pre_transform: 1,
            composite_alpha: COMPOSITE_ALPHA_OPAQUE,
            present_mode: PRESENT_MODE_MAILBOX,
            clipped: true,
        }
    );
}
