//! Textures.
use std::sync::Arc;
use vstd::prelude::*;

use super::vk_image::VkImage;

verus! {

/// A texture on `device`, which it keeps alive: an image the renderer owns and
/// the view it is sampled through.
pub struct VkTexture<D> {
    pub device: Arc<D>,
    pub image: Arc<VkImage<D>>,
    pub image_view: u64,
}

} // verus!
