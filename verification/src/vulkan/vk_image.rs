//! Images: those the renderer owns and those a swapchain hands out.
use std::sync::Arc;
use vstd::prelude::*;

verus! {

/// A two-dimensional size in pixels (`VkExtent2D`).
#[derive(Clone, Copy, Debug, PartialEq, Eq, Structural)]
pub struct Extent2D {
    pub width: u32,
    pub height: u32,
}

/// An image the renderer allocated on `device`, which it keeps alive: its
/// handle, size, `VkFormat` and `VkImageUsageFlags`.
pub struct VkImage<D> {
    pub device: Arc<D>,
    pub native_handle: u64,
    pub extent: Extent2D,
    pub format: i32,
    pub usage: u32,
}

/// An image that belongs to a swapchain: its handle, size, `VkFormat` and
/// `VkImageUsageFlags`.
#[derive(Clone, Copy, Debug, PartialEq, Eq, Structural)]
pub struct VkSwapchainImage {
    pub native_handle: u64,
    pub extent: Extent2D,
    pub format: i32,
    pub usage: u32,
}

impl VkSwapchainImage {
    /// Records a swapchain image with the swapchain's extent, format and usage.
    pub fn new(swapchain_image: u64, extent: Extent2D, format: i32, usage: u32) -> (r: Self)
        ensures
            r.native_handle == swapchain_image,
            r.extent == extent,
            r.format == format,
            r.usage == usage,
    {
        VkSwapchainImage { native_handle: swapchain_image, extent, format, usage }
    }
}

} // verus!
