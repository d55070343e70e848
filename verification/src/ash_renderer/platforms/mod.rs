//! What each window system needs from Vulkan.
pub mod macos;
