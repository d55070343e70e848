//! Image views and the description from which one is created.
use std::sync::Arc;
use vstd::prelude::*;

use super::std_api::arc_clone;
use super::vk_image::{VkImage, VkSwapchainImage};

verus! {

/// `VkComponentMapping`: the `VkComponentSwizzle` of each channel.
#[derive(Clone, Copy, Debug, PartialEq, Eq, Structural)]
pub struct ComponentMapping {
    pub r: i32,
    pub g: i32,
    pub b: i32,
    pub a: i32,
}

/// `VkImageSubresourceRange`.
#[derive(Clone, Copy, Debug, PartialEq, Eq, Structural)]
pub struct ImageSubresourceRange {
    pub aspect_mask: u32,
    pub base_mip_level: u32,
    pub level_count: u32,
    pub base_array_layer: u32,
    pub layer_count: u32,
}

/// What a caller chooses for a new image view: every field of
/// `VkImageViewCreateInfo` but the image.
#[derive(Clone, Copy, Debug, PartialEq, Eq, Structural)]
pub struct VkImageViewCreateInfo {
    pub flags: u32,
    pub view_type: i32,
    pub format: i32,
    pub components: ComponentMapping,
    pub subresource_range: ImageSubresourceRange,
}

/// The full `VkImageViewCreateInfo` handed to the driver: the image and the
/// caller's choices.
#[derive(Clone, Copy, Debug, PartialEq, Eq, Structural)]
pub struct ImageViewDesc {
    pub image: u64,
    pub flags: u32,
    pub view_type: i32,
    pub format: i32,
    pub components: ComponentMapping,
    pub subresource_range: ImageSubresourceRange,
}

/// The image behind a view: one the renderer owns, or one of a swapchain.
#[derive(Clone)]
pub enum VkImageResource<D> {
    Image(Arc<VkImage<D>>),
    SwapchainImage(Arc<VkSwapchainImage>),
}

/// An image view on `device`, which it keeps alive: its handle, the image it
/// looks at (also kept alive), and how it was created.
pub struct VkImageView<D> {
    pub device: Arc<D>,
    pub native_handle: u64,
    pub image_resource: VkImageResource<D>,
    pub create_info: ImageViewDesc,
}

impl<D> VkImageResource<D> {
    /// The handle of the underlying image.
    pub open spec fn image_handle(&self) -> u64 {
        match self {
            VkImageResource::Image(i) => i.native_handle,
            VkImageResource::SwapchainImage(i) => i.native_handle,
        }
    }

    /// Another reference to the same image.
    pub fn share(&self) -> (r: Self)
        ensures
            r == *self,
    {
        match self {
            VkImageResource::Image(i) => VkImageResource::Image(arc_clone(i)),
            VkImageResource::SwapchainImage(i) => VkImageResource::SwapchainImage(arc_clone(i)),
        }
    }

    /// The handle of the underlying image, whichever kind it is.
    pub fn image(&self) -> (r: u64)
        ensures
            r == self.image_handle(),
    {
        match self {
            VkImageResource::Image(i) => i.native_handle,
            VkImageResource::SwapchainImage(i) => i.native_handle,
        }
    }
}

/// The create info of a view of `image` with the caller's choices.
pub open spec fn view_desc_of(image: u64, info: VkImageViewCreateInfo) -> ImageViewDesc {
    ImageViewDesc {
        image,
        flags: info.flags,
        view_type: info.view_type,
        format: info.format,
        components: info.components,
        subresource_range: info.subresource_range,
    }
}

/// A view's create info names the resource's image and keeps every choice of
/// the caller unchanged.
pub proof fn lemma_view_desc_keeps_choices(image: u64, info: VkImageViewCreateInfo)
    ensures
        view_desc_of(image, info).image == image,
        view_desc_of(image, info).flags == info.flags,
        view_desc_of(image, info).view_type == info.view_type,
        view_desc_of(image, info).format == info.format,
        view_desc_of(image, info).components == info.components,
        view_desc_of(image, info).subresource_range == info.subresource_range,
{
}

impl<D> VkImageView<D> {
    /// The create info the driver is given for a view of `image_resource`: its
    /// image, and every other field as `create_info` chose it.
    pub fn create_desc(image_resource: &VkImageResource<D>, create_info: &VkImageViewCreateInfo) -> (r:
        ImageViewDesc)
        ensures
            r == view_desc_of(image_resource.image_handle(), *create_info),
            r.image == image_resource.image_handle(),
            r.flags == create_info.flags,
            r.view_type == create_info.view_type,
            r.format == create_info.format,
            r.components == create_info.components,
            r.subresource_range == create_info.subresource_range,
    {
        ImageViewDesc {
            image: image_resource.image(),
            flags: create_info.flags,
            view_type: create_info.view_type,
            format: create_info.format,
            components: create_info.components,
            subresource_range: create_info.subresource_range,
        }
    }

    /// The view the driver created on `device` (`native_handle`) from
    /// `create_info` over `image_resource`; it keeps the device and the resource
    /// alive and records the create info.
    pub fn new(
        device: &Arc<D>,
        native_handle: u64,
        image_resource: &VkImageResource<D>,
        create_info: &VkImageViewCreateInfo,
    ) -> (r: VkImageView<D>)
        ensures
            r.device == *device,
            r.native_handle == native_handle,
            r.image_resource == *image_resource,
            r.create_info == view_desc_of(image_resource.image_handle(), *create_info),
            r.create_info.image == image_resource.image_handle(),
            r.create_info.flags == create_info.flags,
            r.create_info.view_type == create_info.view_type,
            r.create_info.format == create_info.format,
            r.create_info.components == create_info.components,
            r.create_info.subresource_range == create_info.subresource_range,
    {
        let desc = Self::create_desc(image_resource, create_info);
        VkImageView {
            device: arc_clone(device),
            native_handle,
            image_resource: image_resource.share(),
            create_info: desc,
        }
    }
}

} // verus!
