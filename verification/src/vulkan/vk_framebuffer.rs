//! Framebuffers.
use std::sync::Arc;
use vstd::prelude::*;

use super::vk_image_view::VkImageView;

verus! {

/// A framebuffer on `device`, which it keeps alive: its handle, the colour and
/// depth views it renders into, and the render pass it is compatible with.
pub struct VkFramebuffer<D> {
    pub device: Arc<D>,
    pub native_handle: u64,
    pub color_image_views: Vec<Arc<VkImageView<D>>>,
    pub depth_image_view: Arc<VkImageView<D>>,
    pub render_pass: u64,
}

} // verus!
