//! The Vulkan implementation of the backend.
pub(crate) mod ash_api;
pub(crate) mod std_api;
pub mod vk_device;
pub mod vk_framebuffer;
pub mod vk_image;
pub mod vk_image_view;
pub mod vk_physical_device;
pub mod vk_render_backend;
pub mod vk_swapchain;
pub mod vk_texture;

pub use vk_device::DevicePlan;
pub use vk_framebuffer::VkFramebuffer;
pub use vk_image::{VkImage, VkSwapchainImage};
pub use vk_image_view::{VkImageResource, VkImageView, VkImageViewCreateInfo};
pub use vk_physical_device::VkPhysicalDevice;
pub use vk_render_backend::VkRenderBackend;
pub use vk_swapchain::VkSwapchain;
pub use vk_texture::VkTexture;
