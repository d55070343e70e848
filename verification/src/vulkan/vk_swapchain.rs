//! The swapchain: how its surface format, present mode and create info are
//! chosen, how the per-image frame resources are laid out, and which frame
//! resource an acquired image uses.
use vstd::prelude::*;

use super::vk_image::{Extent2D, VkSwapchainImage};
use super::vk_image_view::{ComponentMapping, ImageSubresourceRange, ImageViewDesc};
use super::vk_physical_device::VkPhysicalDevice;

verus! {

/// `VK_FORMAT_B8G8R8A8_SRGB`.
pub const FORMAT_B8G8R8A8_SRGB: i32 = 50;

/// `VK_COLOR_SPACE_SRGB_NONLINEAR_KHR`.
pub const COLOR_SPACE_SRGB_NONLINEAR: i32 = 0;

/// `VK_PRESENT_MODE_MAILBOX_KHR`.
pub const PRESENT_MODE_MAILBOX: i32 = 1;

/// `VK_PRESENT_MODE_FIFO_KHR`.
pub const PRESENT_MODE_FIFO: i32 = 2;

/// `VK_IMAGE_USAGE_COLOR_ATTACHMENT_BIT`.
pub const IMAGE_USAGE_COLOR_ATTACHMENT: u32 = 0x10;

/// `VK_COMPOSITE_ALPHA_OPAQUE_BIT_KHR`.
pub const COMPOSITE_ALPHA_OPAQUE: u32 = 1;

/// `VK_IMAGE_VIEW_TYPE_2D`.
pub const IMAGE_VIEW_TYPE_2D: i32 = 1;

/// `VK_COMPONENT_SWIZZLE_R`, `_G`, `_B` and `_A`.
pub const COMPONENT_SWIZZLE_R: i32 = 3;

pub const COMPONENT_SWIZZLE_G: i32 = 4;

pub const COMPONENT_SWIZZLE_B: i32 = 5;

pub const COMPONENT_SWIZZLE_A: i32 = 6;

/// `VK_IMAGE_ASPECT_COLOR_BIT`.
pub const IMAGE_ASPECT_COLOR: u32 = 1;

/// A surface format the surface supports (`VkSurfaceFormatKHR`).
#[derive(Clone, Copy, Debug, PartialEq, Eq, Structural)]
pub struct SurfaceFormat {
    pub format: i32,
    pub color_space: i32,
}

/// The part of `VkSurfaceCapabilitiesKHR` that the swapchain is built from.
#[derive(Clone, Copy, Debug, PartialEq, Eq, Structural)]
pub struct SurfaceCapabilities {
    pub min_image_count: u32,
    pub max_image_count: u32,
    pub current_extent: Extent2D,
    pub current_transform: u32,
}

/// How the swapchain images are shared between queue families (`VkSharingMode`).
#[derive(Clone, Copy, Debug, PartialEq, Eq, Structural)]
pub enum SharingMode {
    Exclusive,
    Concurrent,
}

/// The `VkSwapchainCreateInfoKHR` the swapchain is created with, but for the
/// surface handle.
pub struct SwapchainPlan {
    pub surface_format: SurfaceFormat,
    pub min_image_count: u32,
    pub image_extent: Extent2D,
    pub image_array_layers: u32,
    pub image_usage: u32,
    pub image_sharing_mode: SharingMode,
    pub queue_family_indices: Vec<u32>,
    pub pre_transform: u32,
    pub composite_alpha: u32,
    pub present_mode: i32,
    pub clipped: bool,
}

/// The handles that make up the resources of one swapchain image.
#[derive(Clone, Copy, Debug, PartialEq, Eq, Structural)]
pub struct VkFrameResource {
    pub image: u64,
    pub image_view: u64,
    pub command_pool: u64,
    pub command_buffer: u64,
    pub image_available_semaphore: u64,
    pub render_finished_semaphore: u64,
    pub in_flight_fence: u64,
}

/// The format the renderer looks for first: 8-bit BGRA in sRGB.
pub open spec fn is_preferred_format(f: SurfaceFormat) -> bool {
    f.format == FORMAT_B8G8R8A8_SRGB && f.color_space == COLOR_SPACE_SRGB_NONLINEAR
}

/// The first preferred format of `formats`, or `fallback` if none is.
pub open spec fn first_preferred_or(formats: Seq<SurfaceFormat>, fallback: SurfaceFormat) -> SurfaceFormat
    decreases formats.len(),
{
    if formats.len() == 0 {
        fallback
    } else if is_preferred_format(formats[0]) {
        formats[0]
    } else {
        first_preferred_or(formats.drop_first(), fallback)
    }
}

/// The surface format the swapchain uses: the first preferred one, else the
/// first one offered.
pub open spec fn chosen_format(formats: Seq<SurfaceFormat>) -> SurfaceFormat {
    first_preferred_or(formats, formats[0])
}

/// The present mode the swapchain uses: mailbox where offered, else FIFO (which
/// every Vulkan surface supports).
pub open spec fn chosen_present_mode(modes: Seq<i32>) -> i32 {
    if modes.contains(PRESENT_MODE_MAILBOX) {
        PRESENT_MODE_MAILBOX
    } else {
        PRESENT_MODE_FIFO
    }
}

/// One image more than the surface's minimum, but no more than its maximum.
pub open spec fn chosen_image_count(caps: SurfaceCapabilities) -> u32 {
    if caps.min_image_count + 1 <= caps.max_image_count {
        (caps.min_image_count + 1) as u32
    } else {
        caps.max_image_count
    }
}

/// The surface's current extent, unless the surface leaves it to the swapchain
/// (width `u32::MAX`): then the window's extent.
pub open spec fn chosen_extent(caps: SurfaceCapabilities, window_extent: Extent2D) -> Extent2D {
    if caps.current_extent.width == u32::MAX {
        window_extent
    } else {
        caps.current_extent
    }
}

/// The view of a swapchain image: a 2D colour view with the identity swizzle
/// over its single mip level and layer.
pub open spec fn swapchain_view_desc(image: u64, format: i32) -> ImageViewDesc {
    ImageViewDesc {
        image,
        flags: 0,
        view_type: IMAGE_VIEW_TYPE_2D,
        format,
        components: ComponentMapping {
            r: COMPONENT_SWIZZLE_R,
            g: COMPONENT_SWIZZLE_G,
            b: COMPONENT_SWIZZLE_B,
            a: COMPONENT_SWIZZLE_A,
        },
        subresource_range: ImageSubresourceRange {
            aspect_mask: IMAGE_ASPECT_COLOR,
            base_mip_level: 0,
            level_count: 1,
            base_array_layer: 0,
            layer_count: 1,
        },
    }
}

proof fn lemma_first_preferred_skip(formats: Seq<SurfaceFormat>, fallback: SurfaceFormat, i: int)
    requires
        0 <= i < formats.len(),
        !is_preferred_format(formats[i]),
    ensures
        first_preferred_or(formats.skip(i), fallback) == first_preferred_or(formats.skip(i + 1), fallback),
{
    assert(formats.skip(i).drop_first() =~= formats.skip(i + 1));
}

proof fn lemma_first_preferred_or(formats: Seq<SurfaceFormat>, fallback: SurfaceFormat)
    ensures
        formats.contains(first_preferred_or(formats, fallback)) || first_preferred_or(formats, fallback)
            == fallback,
        (exists|i: int| 0 <= i < formats.len() && is_preferred_format(#[trigger] formats[i]))
            ==> ({
            let r = first_preferred_or(formats, fallback);
            exists|i: int|
                0 <= i < formats.len() && formats[i] == r && is_preferred_format(r) && forall|j: int|
                    0 <= j < i ==> !is_preferred_format(#[trigger] formats[j])
        }),
        (forall|i: int| 0 <= i < formats.len() ==> !is_preferred_format(#[trigger] formats[i]))
            ==> first_preferred_or(formats, fallback) == fallback,
    decreases formats.len(),
{
    if formats.len() > 0 {
        let rest = formats.drop_first();
        lemma_first_preferred_or(rest, fallback);
        assert forall|i: int| 0 <= i < rest.len() implies rest[i] == formats[i + 1] by {}
        if !is_preferred_format(formats[0]) {
            let r = first_preferred_or(rest, fallback);
            if rest.contains(r) {
                let k = choose|k: int| 0 <= k < rest.len() && rest[k] == r;
                assert(formats[k + 1] == r);
            }
            if exists|i: int| 0 <= i < formats.len() && is_preferred_format(#[trigger] formats[i]) {
                let i = choose|i: int| 0 <= i < formats.len() && is_preferred_format(#[trigger] formats[i]);
                assert(is_preferred_format(rest[i - 1]));
                let k = choose|k: int|
                    0 <= k < rest.len() && rest[k] == r && is_preferred_format(r) && forall|j: int|
                        0 <= j < k ==> !is_preferred_format(#[trigger] rest[j]);
                assert(formats[k + 1] == r);
                assert forall|j: int| 0 <= j < k + 1 implies !is_preferred_format(#[trigger] formats[j]) by {
                    if j > 0 {
                        assert(formats[j] == rest[j - 1]);
                    }
                }
            }
            if forall|i: int| 0 <= i < formats.len() ==> !is_preferred_format(#[trigger] formats[i]) {
                assert forall|i: int| 0 <= i < rest.len() implies !is_preferred_format(#[trigger] rest[i]) by {
                    assert(rest[i] == formats[i + 1]);
                }
            }
        } else {
            assert(formats.contains(formats[0]));
        }
    }
}

/// The chosen surface format is one the surface offers; when the preferred
/// sRGB format is offered it is chosen, at its first occurrence; otherwise the
/// first format offered is.
pub proof fn lemma_chosen_format(formats: Seq<SurfaceFormat>)
    requires
        formats.len() > 0,
    ensures
        formats.contains(chosen_format(formats)),
        (exists|i: int| 0 <= i < formats.len() && is_preferred_format(#[trigger] formats[i]))
            ==> exists|i: int|
            0 <= i < formats.len() && formats[i] == chosen_format(formats) && is_preferred_format(
                formats[i],
            ) && forall|j: int| 0 <= j < i ==> !is_preferred_format(#[trigger] formats[j]),
        (forall|i: int| 0 <= i < formats.len() ==> !is_preferred_format(#[trigger] formats[i]))
            ==> chosen_format(formats) == formats[0],
{
    lemma_first_preferred_or(formats, formats[0]);
    assert(formats.contains(formats[0]));
}

/// The chosen present mode is mailbox exactly when the surface offers it, and
/// FIFO otherwise.
pub proof fn lemma_chosen_present_mode(modes: Seq<i32>)
    ensures
        chosen_present_mode(modes) == PRESENT_MODE_MAILBOX <==> modes.contains(PRESENT_MODE_MAILBOX),
        chosen_present_mode(modes) == PRESENT_MODE_FIFO <==> !modes.contains(PRESENT_MODE_MAILBOX),
{
}

/// The swapchain never asks for more images than the surface's maximum, nor
/// for more than one beyond its minimum, and asks for exactly that when allowed.
/// A maximum of 0, which Vulkan uses for "no limit", is taken as a limit of 0
/// here, as the renderer's choice does.
pub proof fn lemma_chosen_image_count(caps: SurfaceCapabilities)
    requires
        caps.min_image_count < u32::MAX,
    ensures
        chosen_image_count(caps) <= caps.max_image_count,
        chosen_image_count(caps) <= caps.min_image_count + 1,
        caps.min_image_count + 1 <= caps.max_image_count ==> chosen_image_count(caps)
            == caps.min_image_count + 1,
{
}

/// The swapchain takes the surface's current extent as it is, and the
/// window's extent only when the surface leaves the size to the swapchain
/// (current width `u32::MAX`).
pub proof fn lemma_chosen_extent(caps: SurfaceCapabilities, window_extent: Extent2D)
    ensures
        caps.current_extent.width != u32::MAX ==> chosen_extent(caps, window_extent)
            == caps.current_extent,
        caps.current_extent.width == u32::MAX ==> chosen_extent(caps, window_extent) == window_extent,
{
}

/// The chosen surface format is one the surface offers: the first
/// BGRA8 sRGB format in the sRGB colour space where one is offered, else the
/// first format offered.
pub proof fn lemma_chosen_format_is_first_bgra_srgb(formats: Seq<SurfaceFormat>)
    requires
        formats.len() > 0,
    ensures
        formats.contains(chosen_format(formats)),
        (exists|i: int|
            0 <= i < formats.len() && (#[trigger] formats[i]).format == FORMAT_B8G8R8A8_SRGB
                && formats[i].color_space == COLOR_SPACE_SRGB_NONLINEAR) ==> exists|i: int|
            0 <= i < formats.len() && formats[i] == chosen_format(formats) && chosen_format(formats).format
                == FORMAT_B8G8R8A8_SRGB && chosen_format(formats).color_space == COLOR_SPACE_SRGB_NONLINEAR && forall|j: int|
                0 <= j < i ==> !((#[trigger] formats[j]).format == FORMAT_B8G8R8A8_SRGB
                    && formats[j].color_space == COLOR_SPACE_SRGB_NONLINEAR),
        (forall|i: int|
            0 <= i < formats.len() ==> !((#[trigger] formats[i]).format == FORMAT_B8G8R8A8_SRGB
                && formats[i].color_space == COLOR_SPACE_SRGB_NONLINEAR)) ==> chosen_format(formats)
            == formats[0],
{
    lemma_chosen_format(formats);
    let c = chosen_format(formats);
    if exists|i: int|
        0 <= i < formats.len() && (#[trigger] formats[i]).format == FORMAT_B8G8R8A8_SRGB
            && formats[i].color_space == COLOR_SPACE_SRGB_NONLINEAR {
        let i0 = choose|i: int|
            0 <= i < formats.len() && (#[trigger] formats[i]).format == FORMAT_B8G8R8A8_SRGB
                && formats[i].color_space == COLOR_SPACE_SRGB_NONLINEAR;
        assert(is_preferred_format(formats[i0]));
        let i = choose|i: int|
            0 <= i < formats.len() && formats[i] == c && is_preferred_format(formats[i])
                && forall|j: int| 0 <= j < i ==> !is_preferred_format(#[trigger] formats[j]);
        assert forall|j: int| 0 <= j < i implies !((#[trigger] formats[j]).format
            == FORMAT_B8G8R8A8_SRGB && formats[j].color_space == COLOR_SPACE_SRGB_NONLINEAR) by {
            assert(!is_preferred_format(formats[j]));
        }
    } else {
        assert forall|i: int| 0 <= i < formats.len() implies !is_preferred_format(
            #[trigger] formats[i],
        ) by {}
    }
}

/// The first preferred format offered, else the first one, by a scan.
fn scan_formats(formats: &Vec<SurfaceFormat>) -> (r: SurfaceFormat)
    requires
        formats@.len() > 0,
    ensures
        r == chosen_format(formats@),
{
    let n = formats.len();
    let fallback = formats[0];
    assert(formats@.skip(0) =~= formats@);
    for i in 0..n
        invariant
            n == formats@.len(),
            fallback == formats@[0],
            chosen_format(formats@) == first_preferred_or(formats@.skip(i as int), fallback),
    {
        let format = formats[i];
        if format.format == FORMAT_B8G8R8A8_SRGB && format.color_space == COLOR_SPACE_SRGB_NONLINEAR {
            assert(formats@.skip(i as int)[0] == format);
            return format;
        }
        proof {
            lemma_first_preferred_skip(formats@, fallback, i as int);
        }
    }
    assert(formats@.skip(n as int).len() == 0);
    fallback
}

/// Picks the swapchain's surface format from those the surface offers: the
/// first 8-bit BGRA sRGB format in the sRGB colour space, else the first one.
pub fn choose_swapchain_format(formats: &Vec<SurfaceFormat>) -> (r: SurfaceFormat)
    requires
        formats@.len() > 0,
    ensures
        r == chosen_format(formats@),
        formats@.contains(r),
        (exists|i: int|
            0 <= i < formats@.len() && (#[trigger] formats@[i]).format == FORMAT_B8G8R8A8_SRGB
                && formats@[i].color_space == COLOR_SPACE_SRGB_NONLINEAR) ==> exists|i: int|
            0 <= i < formats@.len() && formats@[i] == r && r.format == FORMAT_B8G8R8A8_SRGB
                && r.color_space == COLOR_SPACE_SRGB_NONLINEAR && forall|j: int|
                0 <= j < i ==> !((#[trigger] formats@[j]).format == FORMAT_B8G8R8A8_SRGB
                    && formats@[j].color_space == COLOR_SPACE_SRGB_NONLINEAR),
        (forall|i: int|
            0 <= i < formats@.len() ==> !((#[trigger] formats@[i]).format == FORMAT_B8G8R8A8_SRGB
                && formats@[i].color_space == COLOR_SPACE_SRGB_NONLINEAR)) ==> r == formats@[0],
{
    let r = scan_formats(formats);
    proof {
        lemma_chosen_format_is_first_bgra_srgb(formats@);
    }
    r
}

/// Picks the swapchain's present mode from those the surface offers: mailbox
/// when offered, else FIFO.
pub fn choose_swapchain_present_mode(present_modes: &Vec<i32>) -> (r: i32)
    ensures
        r == chosen_present_mode(present_modes@),
        present_modes@.contains(PRESENT_MODE_MAILBOX) ==> r == PRESENT_MODE_MAILBOX,
        !present_modes@.contains(PRESENT_MODE_MAILBOX) ==> r == PRESENT_MODE_FIFO,
{
    let n = present_modes.len();
    for i in 0..n
        invariant
            n == present_modes@.len(),
            forall|j: int| 0 <= j < i ==> present_modes@[j] != PRESENT_MODE_MAILBOX,
    {
        if present_modes[i] == PRESENT_MODE_MAILBOX {
            assert(present_modes@[i as int] == PRESENT_MODE_MAILBOX);
            return PRESENT_MODE_MAILBOX;
        }
    }
    PRESENT_MODE_FIFO
}

/// The create info of the swapchain for a surface that offers `formats` and
/// `present_modes` and has `capabilities`, in a window of `window_extent`, on
/// `physical_device`: the chosen format, present mode, image count and extent,
/// one layer of colour-attachment images, the surface's current transform,
/// opaque composition, clipping, and images shared between the graphics and
/// present families only when those differ.
pub fn plan_swapchain(
    formats: &Vec<SurfaceFormat>,
    present_modes: &Vec<i32>,
    capabilities: &SurfaceCapabilities,
    window_extent: Extent2D,
    physical_device: &VkPhysicalDevice,
) -> (r: SwapchainPlan)
    requires
        formats@.len() > 0,
        capabilities.min_image_count < u32::MAX,
    ensures
        r.surface_format == chosen_format(formats@),
        r.present_mode == chosen_present_mode(present_modes@),
        r.min_image_count == chosen_image_count(*capabilities),
        r.image_extent == chosen_extent(*capabilities, window_extent),
        capabilities.min_image_count + 1 <= capabilities.max_image_count ==> r.min_image_count
            == capabilities.min_image_count + 1,
        capabilities.min_image_count + 1 > capabilities.max_image_count ==> r.min_image_count
            == capabilities.max_image_count,
        capabilities.current_extent.width != u32::MAX ==> r.image_extent
            == capabilities.current_extent,
        capabilities.current_extent.width == u32::MAX ==> r.image_extent == window_extent,
        present_modes@.contains(PRESENT_MODE_MAILBOX) ==> r.present_mode == PRESENT_MODE_MAILBOX,
        !present_modes@.contains(PRESENT_MODE_MAILBOX) ==> r.present_mode == PRESENT_MODE_FIFO,
        r.image_array_layers == 1,
        r.image_usage == IMAGE_USAGE_COLOR_ATTACHMENT,
        r.pre_transform == capabilities.current_transform,
        r.composite_alpha == COMPOSITE_ALPHA_OPAQUE,
        r.clipped,
        physical_device.graphics_family != physical_device.present_family ==> {
            &&& r.image_sharing_mode == SharingMode::Concurrent
            &&& r.queue_family_indices@ == seq![
                physical_device.graphics_family,
                physical_device.present_family,
            ]
        },
        physical_device.graphics_family == physical_device.present_family ==> {
            &&& r.image_sharing_mode == SharingMode::Exclusive
            &&& r.queue_family_indices@.len() == 0
        },
{
    let surface_format = choose_swapchain_format(formats);
    let present_mode = choose_swapchain_present_mode(present_modes);
    let wanted = capabilities.min_image_count + 1;
    let min_image_count = if wanted <= capabilities.max_image_count {
        wanted
    } else {
        capabilities.max_image_count
    };
    let image_extent = if capabilities.current_extent.width == u32::MAX {
        window_extent
    } else {
        capabilities.current_extent
    };
    let graphics = physical_device.graphics_family;
    let present = physical_device.present_family;
    let (image_sharing_mode, queue_family_indices) = if graphics != present {
        (SharingMode::Concurrent, vec![graphics, present])
    } else {
        (SharingMode::Exclusive, Vec::new())
    };
    SwapchainPlan {
        surface_format,
        min_image_count,
        image_extent,
        image_array_layers: 1,
        image_usage: IMAGE_USAGE_COLOR_ATTACHMENT,
        image_sharing_mode,
        queue_family_indices,
        pre_transform: capabilities.current_transform,
        composite_alpha: COMPOSITE_ALPHA_OPAQUE,
        present_mode,
        clipped: true,
    }
}

/// The swapchain's images, each recorded with the swapchain's extent, format
/// and usage, in the order the driver listed them.
pub fn swapchain_images(handles: &Vec<u64>, extent: Extent2D, format: i32, usage: u32) -> (r: Vec<
    VkSwapchainImage,
>)
    ensures
        r@.len() == handles@.len(),
        forall|i: int|
            0 <= i < handles@.len() ==> #[trigger] r@[i] == (VkSwapchainImage {
                native_handle: handles@[i],
                extent,
                format,
                usage,
            }),
{
    let mut images: Vec<VkSwapchainImage> = Vec::new();
    let n = handles.len();
    for i in 0..n
        invariant
            n == handles@.len(),
            images@.len() == i,
            forall|j: int|
                0 <= j < i ==> #[trigger] images@[j] == (VkSwapchainImage {
                    native_handle: handles@[j],
                    extent,
                    format,
                    usage,
                }),
    {
        images.push(VkSwapchainImage::new(handles[i], extent, format, usage));
    }
    images
}

/// The create info of the view of a swapchain image: a 2D colour view in the
/// image's format with the identity swizzle over its one mip level and layer.
pub fn swapchain_image_view_desc(image: &VkSwapchainImage) -> (r: ImageViewDesc)
    ensures
        r == swapchain_view_desc(image.native_handle, image.format),
{
    ImageViewDesc {
        image: image.native_handle,
        flags: 0,
        view_type: IMAGE_VIEW_TYPE_2D,
        format: image.format,
        components: ComponentMapping {
            r: COMPONENT_SWIZZLE_R,
            g: COMPONENT_SWIZZLE_G,
            b: COMPONENT_SWIZZLE_B,
            a: COMPONENT_SWIZZLE_A,
        },
        subresource_range: ImageSubresourceRange {
            aspect_mask: IMAGE_ASPECT_COLOR,
            base_mip_level: 0,
            level_count: 1,
            base_array_layer: 0,
            layer_count: 1,
        },
    }
}

/// Each pool's command buffers as a plain sequence.
pub open spec fn buffer_lists(per_pool: Seq<Vec<u64>>) -> Seq<Seq<u64>> {
    per_pool.map_values(|v: Vec<u64>| v@)
}

/// The command buffers allocated from each pool, one list after the other.
pub fn flatten_command_buffers(per_pool: &Vec<Vec<u64>>) -> (r: Vec<u64>)
    ensures
        r@ == buffer_lists(per_pool@).flatten(),
{
    let mut all: Vec<u64> = Vec::new();
    let n = per_pool.len();
    assert(buffer_lists(per_pool@).take(0) =~= Seq::<Seq<u64>>::empty());
    for i in 0..n
        invariant
            n == per_pool@.len(),
            all@ == buffer_lists(per_pool@).take(i as int).flatten(),
    {
        let buffers = &per_pool[i];
        let m = buffers.len();
        let ghost before = all@;
        for j in 0..m
            invariant
                m == buffers@.len(),
                all@ == before + buffers@.take(j as int),
        {
            all.push(buffers[j]);
            assert(buffers@.take(j + 1) =~= buffers@.take(j as int).push(buffers@[j as int]));
        }
        proof {
            let s = buffer_lists(per_pool@);
            assert(buffers@.take(m as int) =~= buffers@);
            assert(s.take(i + 1).drop_last() =~= s.take(i as int));
            assert(s.take(i + 1).last() == buffers@);
            s.take(i as int).lemma_flatten_push(buffers@);
            assert(s.take(i as int).push(buffers@) =~= s.take(i + 1));
        }
    }
    assert(buffer_lists(per_pool@).take(n as int) =~= buffer_lists(per_pool@));
    all
}

/// When every pool gave one command buffer, the `i`-th buffer of the flat list
/// is the one of the `i`-th pool, so each frame gets its own pool's buffer.
pub proof fn lemma_one_buffer_per_pool(per_pool: Seq<Seq<u64>>)
    requires
        forall|i: int| 0 <= i < per_pool.len() ==> (#[trigger] per_pool[i]).len() == 1,
    ensures
        per_pool.flatten().len() == per_pool.len(),
        forall|i: int| 0 <= i < per_pool.len() ==> #[trigger] per_pool.flatten()[i] == per_pool[i][0],
    decreases per_pool.len(),
{
    if per_pool.len() > 0 {
        let rest = per_pool.drop_first();
        assert forall|i: int| 0 <= i < rest.len() implies (#[trigger] rest[i]).len() == 1 by {
            assert(rest[i] == per_pool[i + 1]);
        }
        lemma_one_buffer_per_pool(rest);
        assert(per_pool[0].len() == 1);
        assert forall|i: int| 0 <= i < per_pool.len() implies #[trigger] per_pool.flatten()[i]
            == per_pool[i][0] by {
            if i > 0 {
                assert(rest[i - 1] == per_pool[i]);
                assert(per_pool.flatten()[i] == rest.flatten()[i - 1]);
            }
        }
    }
}

/// `VK_COMMAND_BUFFER_LEVEL_PRIMARY`.
pub const COMMAND_BUFFER_LEVEL_PRIMARY: i32 = 0;

/// `VK_FENCE_CREATE_SIGNALED_BIT`.
pub const FENCE_CREATE_SIGNALED: u32 = 1;

/// How the per-image objects of a swapchain are created: how many of each,
/// the queue family of the command pools, the level and number of command
/// buffers taken from each pool, and the flags of the in-flight fences.
#[derive(Clone, Copy, Debug, PartialEq, Eq, Structural)]
pub struct FrameResourcePlan {
    pub image_count: usize,
    pub command_pool_queue_family: u32,
    pub command_buffer_level: i32,
    pub command_buffers_per_pool: u32,
    pub fence_flags: u32,
}

/// Plans the objects of a swapchain with `image_count` images on a device
/// whose graphics family is `graphics_family`: per image one command pool on
/// the graphics family, one primary command buffer from it, an image-available
/// and a render-finished semaphore, and a fence created signalled, so that the
/// first wait on it returns at once.
pub fn plan_frame_resources(image_count: usize, graphics_family: u32) -> (r: FrameResourcePlan)
    ensures
        r.image_count == image_count,
        r.command_pool_queue_family == graphics_family,
        r.command_buffer_level == COMMAND_BUFFER_LEVEL_PRIMARY,
        r.command_buffers_per_pool == 1,
        r.fence_flags == FENCE_CREATE_SIGNALED,
{
    FrameResourcePlan {
        image_count,
        command_pool_queue_family: graphics_family,
        command_buffer_level: COMMAND_BUFFER_LEVEL_PRIMARY,
        command_buffers_per_pool: 1,
        fence_flags: FENCE_CREATE_SIGNALED,
    }
}

/// The frame resource of image `i`: the `i`-th entry of each list.
pub open spec fn frame_resource_at(
    images: Seq<VkSwapchainImage>,
    image_views: Seq<u64>,
    command_pools: Seq<u64>,
    command_buffers: Seq<u64>,
    image_available: Seq<u64>,
    render_finished: Seq<u64>,
    in_flight: Seq<u64>,
    i: int,
) -> VkFrameResource {
    VkFrameResource {
        image: images[i].native_handle,
        image_view: image_views[i],
        command_pool: command_pools[i],
        command_buffer: command_buffers[i],
        image_available_semaphore: image_available[i],
        render_finished_semaphore: render_finished[i],
        in_flight_fence: in_flight[i],
    }
}

/// One frame resource per swapchain image, the `i`-th made of the `i`-th entry
/// of each list.
pub fn assemble_frame_resources(
    images: &Vec<VkSwapchainImage>,
    image_views: &Vec<u64>,
    command_pools: &Vec<u64>,
    command_buffers: &Vec<u64>,
    image_available: &Vec<u64>,
    render_finished: &Vec<u64>,
    in_flight: &Vec<u64>,
) -> (r: Vec<VkFrameResource>)
    requires
        image_views@.len() >= images@.len(),
        command_pools@.len() >= images@.len(),
        command_buffers@.len() >= images@.len(),
        image_available@.len() >= images@.len(),
        render_finished@.len() >= images@.len(),
        in_flight@.len() >= images@.len(),
    ensures
        r@.len() == images@.len(),
        forall|i: int|
            0 <= i < images@.len() ==> #[trigger] r@[i] == frame_resource_at(
                images@,
                image_views@,
                command_pools@,
                command_buffers@,
                image_available@,
                render_finished@,
                in_flight@,
                i,
            ),
        forall|i: int|
            0 <= i < images@.len() ==> {
                &&& (#[trigger] r@[i]).image == images@[i].native_handle
                &&& r@[i].image_view == image_views@[i]
                &&& r@[i].command_pool == command_pools@[i]
                &&& r@[i].command_buffer == command_buffers@[i]
                &&& r@[i].image_available_semaphore == image_available@[i]
                &&& r@[i].render_finished_semaphore == render_finished@[i]
                &&& r@[i].in_flight_fence == in_flight@[i]
            },
{
    let mut frames: Vec<VkFrameResource> = Vec::new();
    let n = images.len();
    for i in 0..n
        invariant
            n == images@.len(),
            image_views@.len() >= n,
            command_pools@.len() >= n,
            command_buffers@.len() >= n,
            image_available@.len() >= n,
            render_finished@.len() >= n,
            in_flight@.len() >= n,
            frames@.len() == i,
            forall|j: int|
                0 <= j < i ==> #[trigger] frames@[j] == frame_resource_at(
                    images@,
                    image_views@,
                    command_pools@,
                    command_buffers@,
                    image_available@,
                    render_finished@,
                    in_flight@,
                    j,
                ),
    {
        frames.push(
            VkFrameResource {
                image: images[i].native_handle,
                image_view: image_views[i],
                command_pool: command_pools[i],
                command_buffer: command_buffers[i],
                image_available_semaphore: image_available[i],
                render_finished_semaphore: render_finished[i],
                in_flight_fence: in_flight[i],
            },
        );
    }
    frames
}

/// A swapchain: its handle, its surface, the colour space and present mode it
/// was made with, the resources of each of its images, and the frame it is on.
pub struct VkSwapchain {
    pub native_handle: u64,
    pub surface: u64,
    pub image_color_space: i32,
    pub present_mode: i32,
    pub frame_resources: Vec<VkFrameResource>,
    pub current_frame: usize,
}

impl VkSwapchain {
    /// A swapchain on its first frame.
    pub fn new(
        native_handle: u64,
        surface: u64,
        image_color_space: i32,
        present_mode: i32,
        frame_resources: Vec<VkFrameResource>,
    ) -> (r: Self)
        ensures
            r.native_handle == native_handle,
            r.surface == surface,
            r.image_color_space == image_color_space,
            r.present_mode == present_mode,
            r.frame_resources@ == frame_resources@,
            r.current_frame == 0,
    {
        VkSwapchain {
            native_handle,
            surface,
            image_color_space,
            present_mode,
            frame_resources,
            current_frame: 0,
        }
    }

    /// The frame after the current one, counting round the frame resources.
    pub open spec fn next_frame(&self) -> int {
        (self.current_frame + 1) % (self.frame_resources@.len() as int)
    }

    /// The frame after the current one is the current one plus one, counted
    /// round the frame resources.
    pub proof fn lemma_next_frame(&self)
        requires
            self.frame_resources@.len() > 0,
        ensures
            0 <= self.next_frame() < self.frame_resources@.len(),
            self.next_frame() == (self.current_frame + 1) % (self.frame_resources@.len() as int),
            self.current_frame + 1 < self.frame_resources@.len() ==> self.next_frame()
                == self.current_frame + 1,
            self.current_frame + 1 == self.frame_resources@.len() ==> self.next_frame() == 0,
    {
        let n = self.frame_resources@.len();
        if self.current_frame + 1 < n {
            vstd::arithmetic::div_mod::lemma_small_mod((self.current_frame + 1) as nat, n);
        }
        if self.current_frame + 1 == n {
            assert((n as int) % (n as int) == 0) by (nonlinear_arith)
                requires
                    n > 0,
            ;
        }
    }

    /// The semaphore that the next image acquisition signals: the one of the
    /// frame after the current one.
    pub fn acquire_semaphore(&self) -> (r: u64)
        requires
            self.frame_resources@.len() > 0,
            self.current_frame < usize::MAX,
        ensures
            0 <= self.next_frame() < self.frame_resources@.len(),
            r == self.frame_resources@[self.next_frame()].image_available_semaphore,
            r == self.frame_resources@[(self.current_frame + 1) % (
            self.frame_resources@.len() as int)].image_available_semaphore,
    {
        let next_frame = (self.current_frame + 1) % self.frame_resources.len();
        self.frame_resources[next_frame].image_available_semaphore
    }

    /// The frame resource of the image the driver handed out.
    pub fn frame_resource(&self, image_index: u32) -> (r: VkFrameResource)
        requires
            image_index < self.frame_resources@.len(),
        ensures
            r == self.frame_resources@[image_index as int],
    {
        self.frame_resources[image_index as usize]
    }
}

} // verus!
