//! Swapchain configuration: which surface format, present mode, extent and
//! image count the renderer asks for.
use vstd::prelude::*;
use crate::vk::{
    COMPOSITE_ALPHA_OPAQUE, FORMAT_B8G8R8A8_SRGB, IMAGE_USAGE_COLOR_ATTACHMENT, PRESENT_MODE_FIFO,
    PRESENT_MODE_MAILBOX, SHARING_MODE_EXCLUSIVE,
};

verus! {

/// A width and height in pixels (`vk::Extent2D`).
#[derive(Clone, Copy, Debug, PartialEq, Eq, Structural)]
pub struct Extent2D {
    pub width: u32,
    pub height: u32,
}

/// A format and colour space that a surface supports (`vk::SurfaceFormatKHR`).
#[derive(Clone, Copy, Debug, PartialEq, Eq, Structural)]
pub struct SurfaceFormat {
    pub format: i32,
    pub color_space: i32,
}

/// The part of `vk::SurfaceCapabilitiesKHR` that the swapchain choice reads.
#[derive(Clone, Copy, Debug, PartialEq, Eq, Structural)]
pub struct SurfaceCapabilities {
    pub min_image_count: u32,
    /// Zero means that the surface sets no upper bound.
    pub max_image_count: u32,
    /// A width of `u32::MAX` means that the swapchain picks the extent.
    pub current_extent: Extent2D,
    pub current_transform: u32,
}

/// Everything the renderer puts into its `vk::SwapchainCreateInfoKHR`.
#[derive(Clone, Copy, Debug, PartialEq, Eq, Structural)]
pub struct SwapchainSettings {
    pub surface: u64,
    pub min_image_count: u32,
    pub image_format: i32,
    pub image_color_space: i32,
    pub image_extent: Extent2D,
    pub image_array_layers: u32,
    pub image_usage: u32,
    pub image_sharing_mode: i32,
    pub pre_transform: u32,
    pub composite_alpha: u32,
    pub present_mode: i32,
    pub clipped: bool,
}

/// Index `k` holds the first `B8G8R8A8_SRGB` format of `formats`.
pub open spec fn is_first_srgb(formats: Seq<SurfaceFormat>, k: int) -> bool {
    &&& 0 <= k < formats.len()
    &&& formats[k].format == FORMAT_B8G8R8A8_SRGB
    &&& forall|j: int| 0 <= j < k ==> formats[j].format != FORMAT_B8G8R8A8_SRGB
}

pub open spec fn offers_srgb(formats: Seq<SurfaceFormat>) -> bool {
    exists|i: int| 0 <= i < formats.len() && formats[i].format == FORMAT_B8G8R8A8_SRGB
}

/// The first `B8G8R8A8_SRGB` format on offer, or else the first format.
pub open spec fn preferred_surface_format(formats: Seq<SurfaceFormat>) -> SurfaceFormat {
    if offers_srgb(formats) {
        formats[choose|k: int| is_first_srgb(formats, k)]
    } else {
        formats[0]
    }
}

/// `MAILBOX` when the surface offers it, else `FIFO`.
pub open spec fn preferred_present_mode(modes: Seq<i32>) -> i32 {
    if modes.contains(PRESENT_MODE_MAILBOX) {
        PRESENT_MODE_MAILBOX
    } else {
        PRESENT_MODE_FIFO
    }
}

/// The surface's current extent, or the requested size where the surface
/// leaves the choice to the swapchain.
pub open spec fn spec_swap_extent(caps: SurfaceCapabilities, size: (u32, u32)) -> Extent2D {
    if caps.current_extent.width == u32::MAX {
        Extent2D { width: size.0, height: size.1 }
    } else {
        caps.current_extent
    }
}

/// One image more than the minimum, but no more than the maximum where
/// there is one.
pub open spec fn spec_image_count(min_image_count: u32, max_image_count: u32) -> int {
    if max_image_count > 0 && min_image_count + 1 > max_image_count {
        max_image_count as int
    } else {
        min_image_count + 1
    }
}

pub open spec fn spec_swapchain_settings(
    surface: u64,
    formats: Seq<SurfaceFormat>,
    modes: Seq<i32>,
    caps: SurfaceCapabilities,
    size: (u32, u32),
) -> SwapchainSettings {
    SwapchainSettings {
        surface,
        min_image_count: spec_image_count(caps.min_image_count, caps.max_image_count) as u32,
        image_format: preferred_surface_format(formats).format,
        image_color_space: preferred_surface_format(formats).color_space,
        image_extent: spec_swap_extent(caps, size),
        image_array_layers: 1,
        image_usage: IMAGE_USAGE_COLOR_ATTACHMENT,
        image_sharing_mode: SHARING_MODE_EXCLUSIVE,
        pre_transform: caps.current_transform,
        composite_alpha: COMPOSITE_ALPHA_OPAQUE,
        present_mode: preferred_present_mode(modes),
        clipped: true,
    }
}

proof fn lemma_first_srgb_unique(formats: Seq<SurfaceFormat>, k1: int, k2: int)
    requires
        is_first_srgb(formats, k1),
        is_first_srgb(formats, k2),
    ensures
        k1 == k2,
{
    if k1 < k2 {
        assert(formats[k1].format == FORMAT_B8G8R8A8_SRGB);
    } else if k2 < k1 {
        assert(formats[k2].format == FORMAT_B8G8R8A8_SRGB);
    }
}

/// Picks the surface format: `B8G8R8A8_SRGB` if the surface offers it,
/// otherwise the first format it lists.
pub fn choose_surface_format(formats: &Vec<SurfaceFormat>) -> (chosen: SurfaceFormat)
    requires
        formats.len() > 0,
    ensures
        chosen == preferred_surface_format(formats@),
        exists|k: int| 0 <= k < formats@.len() && formats@[k] == chosen && {
            ||| chosen.format == FORMAT_B8G8R8A8_SRGB
                && forall|j: int| 0 <= j < k ==> formats@[j].format != FORMAT_B8G8R8A8_SRGB
            ||| k == 0 && forall|j: int| 0 <= j < formats@.len() ==> formats@[j].format != FORMAT_B8G8R8A8_SRGB
        },
{
    let mut i: usize = 0;
    while i < formats.len()
        invariant
            0 <= i <= formats.len(),
            forall|j: int| 0 <= j < i ==> formats@[j].format != FORMAT_B8G8R8A8_SRGB,
        decreases formats.len() - i,
    {
        if formats[i].format == FORMAT_B8G8R8A8_SRGB {
            proof {
                let k: int = i as int;
                assert(formats@[k] == formats@[k]);
                assert(is_first_srgb(formats@, k));
                assert(offers_srgb(formats@));
                let c: int = choose|c: int| is_first_srgb(formats@, c);
                lemma_first_srgb_unique(formats@, k, c);
            }
            return formats[i];
        }
        i += 1;
    }
    assert(formats@[0] == formats@[0]);
    formats[0]
}

/// Picks the present mode: `MAILBOX` if the surface offers it, otherwise
/// `FIFO`, which every surface supports.
pub fn choose_present_mode(modes: &Vec<i32>) -> (mode: i32)
    ensures
        mode == preferred_present_mode(modes@),
        (exists|i: int| 0 <= i < modes@.len() && modes@[i] == PRESENT_MODE_MAILBOX) ==> mode == PRESENT_MODE_MAILBOX,
        (forall|i: int| 0 <= i < modes@.len() ==> modes@[i] != PRESENT_MODE_MAILBOX) ==> mode == PRESENT_MODE_FIFO,
{
    let mut i: usize = 0;
    while i < modes.len()
        invariant
            0 <= i <= modes.len(),
            forall|j: int| 0 <= j < i ==> modes@[j] != PRESENT_MODE_MAILBOX,
        decreases modes.len() - i,
    {
        if modes[i] == PRESENT_MODE_MAILBOX {
            assert(modes@.contains(PRESENT_MODE_MAILBOX)) by {
                assert(modes@[i as int] == PRESENT_MODE_MAILBOX);
            }
            return PRESENT_MODE_MAILBOX;
        }
        i += 1;
    }
    PRESENT_MODE_FIFO
}

/// The swapchain extent: the requested size when the surface reports a
/// current width of `u32::MAX`, otherwise the surface's current extent.
pub fn choose_swap_extent(caps: &SurfaceCapabilities, size: (u32, u32)) -> (extent: Extent2D)
    ensures
        extent == spec_swap_extent(*caps, size),
        caps.current_extent.width != u32::MAX ==> extent == caps.current_extent,
        caps.current_extent.width == u32::MAX ==> extent.width == size.0 && extent.height == size.1,
{
    if caps.current_extent.width == u32::MAX {
        Extent2D { width: size.0, height: size.1 }
    } else {
        caps.current_extent
    }
}

/// The number of swapchain images to ask for: the surface's minimum plus
/// one, lowered to its maximum where it has one.
pub fn desired_image_count(caps: &SurfaceCapabilities) -> (count: u32)
    requires
        caps.min_image_count < u32::MAX,
    ensures
        count == spec_image_count(caps.min_image_count, caps.max_image_count),
{
    let mut count: u32 = caps.min_image_count + 1;
    if caps.max_image_count > 0 && count > caps.max_image_count {
        count = caps.max_image_count;
    }
    count
}

/// The whole swapchain configuration for `surface`, from the formats,
/// present modes and capabilities that the surface reports and the window
/// size that the renderer requests.
pub fn swapchain_settings(
    surface: u64,
    formats: &Vec<SurfaceFormat>,
    modes: &Vec<i32>,
    caps: &SurfaceCapabilities,
    size: (u32, u32),
) -> (settings: SwapchainSettings)
    requires
        formats.len() > 0,
        caps.min_image_count < u32::MAX,
    ensures
        settings == spec_swapchain_settings(surface, formats@, modes@, *caps, size),
{
    let format = choose_surface_format(formats);
    let present_mode: i32 = choose_present_mode(modes);
    let extent = choose_swap_extent(caps, size);
    let count: u32 = desired_image_count(caps);
    SwapchainSettings {
        surface,
        min_image_count: count,
        image_format: format.format,
        image_color_space: format.color_space,
        image_extent: extent,
        image_array_layers: 1,
        image_usage: IMAGE_USAGE_COLOR_ATTACHMENT,
        image_sharing_mode: SHARING_MODE_EXCLUSIVE,
        pre_transform: caps.current_transform,
        composite_alpha: COMPOSITE_ALPHA_OPAQUE,
        present_mode,
        clipped: true,
    }
}

/// The chosen surface format is always one that the surface offers, and it
/// is `B8G8R8A8_SRGB` whenever the surface offers that format.
pub proof fn lemma_preferred_format_is_offered(formats: Seq<SurfaceFormat>)
    requires
        formats.len() > 0,
    ensures
        formats.contains(preferred_surface_format(formats)),
        offers_srgb(formats) ==> preferred_surface_format(formats).format == FORMAT_B8G8R8A8_SRGB,
        !offers_srgb(formats) ==> preferred_surface_format(formats) == formats[0],
{
    if offers_srgb(formats) {
        let i: int = choose|i: int| 0 <= i < formats.len() && formats[i].format == FORMAT_B8G8R8A8_SRGB;
        lemma_some_first_srgb(formats, i);
        let k: int = choose|k: int| is_first_srgb(formats, k);
        assert(formats[k] == preferred_surface_format(formats));
    } else {
        assert(formats[0] == preferred_surface_format(formats));
    }
}

/// Where some entry is `B8G8R8A8_SRGB`, a first such entry exists.
proof fn lemma_some_first_srgb(formats: Seq<SurfaceFormat>, i: int)
    requires
        0 <= i < formats.len(),
        formats[i].format == FORMAT_B8G8R8A8_SRGB,
    ensures
        exists|k: int| is_first_srgb(formats, k),
    decreases i,
{
    if forall|j: int| 0 <= j < i ==> formats[j].format != FORMAT_B8G8R8A8_SRGB {
        assert(is_first_srgb(formats, i));
    } else {
        let j2: int = choose|j2: int| 0 <= j2 < i && formats[j2].format == FORMAT_B8G8R8A8_SRGB;
        lemma_some_first_srgb(formats, j2);
    }
}

/// The image count never falls below the surface's minimum, never exceeds
/// its maximum where it has one, is at least one, and is exactly one more
/// than the minimum wherever the maximum leaves room for that.
pub proof fn lemma_image_count_within_limits(min_image_count: u32, max_image_count: u32)
    requires
        min_image_count < u32::MAX,
        max_image_count == 0 || max_image_count >= min_image_count,
    ensures
        spec_image_count(min_image_count, max_image_count) >= min_image_count,
        spec_image_count(min_image_count, max_image_count) >= 1,
        max_image_count > 0 ==> spec_image_count(min_image_count, max_image_count) <= max_image_count,
        (max_image_count == 0 || max_image_count > min_image_count)
            ==> spec_image_count(min_image_count, max_image_count) == min_image_count + 1,
{
}

/// The image count is one more than the surface's minimum, except where the
/// surface sets a maximum that this would exceed; then it is that maximum.
pub proof fn lemma_image_count_exact(min_image_count: u32, max_image_count: u32)
    ensures
        (max_image_count == 0 || max_image_count > min_image_count)
            ==> spec_image_count(min_image_count, max_image_count) == min_image_count + 1,
        (max_image_count > 0 && max_image_count <= min_image_count)
            ==> spec_image_count(min_image_count, max_image_count) == max_image_count,
{
}

/// The chosen format is the first `B8G8R8A8_SRGB` entry of the surface's
/// list where there is one, and the list's first entry otherwise.
pub proof fn lemma_preferred_format_is_first_srgb(formats: Seq<SurfaceFormat>, k: int)
    requires
        0 <= k < formats.len(),
        formats[k].format == FORMAT_B8G8R8A8_SRGB,
        forall|j: int| 0 <= j < k ==> formats[j].format != FORMAT_B8G8R8A8_SRGB,
    ensures
        preferred_surface_format(formats) == formats[k],
{
    assert(is_first_srgb(formats, k));
    assert(offers_srgb(formats));
    let c: int = choose|c: int| is_first_srgb(formats, c);
    lemma_first_srgb_unique(formats, k, c);
}

/// MAILBOX is chosen exactly when some entry of the surface's list, the
/// first one included, is MAILBOX; otherwise FIFO is chosen.
pub proof fn lemma_present_mode_choice(modes: Seq<i32>)
    ensures
        (preferred_present_mode(modes) == PRESENT_MODE_MAILBOX)
            <==> (exists|i: int| 0 <= i < modes.len() && modes[i] == PRESENT_MODE_MAILBOX),
        (forall|i: int| 0 <= i < modes.len() ==> modes[i] != PRESENT_MODE_MAILBOX)
            ==> preferred_present_mode(modes) == PRESENT_MODE_FIFO,
        modes.len() > 0 && modes[0] == PRESENT_MODE_MAILBOX ==> preferred_present_mode(modes) == PRESENT_MODE_MAILBOX,
{
    if exists|i: int| 0 <= i < modes.len() && modes[i] == PRESENT_MODE_MAILBOX {
        let i: int = choose|i: int| 0 <= i < modes.len() && modes[i] == PRESENT_MODE_MAILBOX;
        assert(modes.contains(modes[i]));
    }
    if modes.len() > 0 && modes[0] == PRESENT_MODE_MAILBOX {
        assert(modes.contains(modes[0]));
    }
}

/// Where the surface reports a current extent (any width but `u32::MAX`),
/// the swapchain takes exactly that extent, whatever size was requested;
/// only where the width is `u32::MAX` does it take the requested size.
pub proof fn lemma_swap_extent_follows_surface(caps: SurfaceCapabilities, size: (u32, u32))
    ensures
        caps.current_extent.width != u32::MAX ==> spec_swap_extent(caps, size) == caps.current_extent,
        caps.current_extent.width == u32::MAX
            ==> spec_swap_extent(caps, size).width == size.0 && spec_swap_extent(caps, size).height == size.1,
        forall|other: (u32, u32)| caps.current_extent.width != u32::MAX
            ==> #[trigger] spec_swap_extent(caps, other) == spec_swap_extent(caps, size),
{
}

} // verus!
