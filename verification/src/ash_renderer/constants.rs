//! The renderer's fixed settings.
use vstd::prelude::*;

use crate::vulkan::ash_api::{
    make_api_version, portability_subset_extension_name, swapchain_extension_name,
};
use crate::vulkan::vk_render_backend::texts;

verus! {

/// The renderer runs with the validation layers and their debug messenger.
pub const VALIDATION_ENABLED: bool = true;

/// The application's name.
pub const APP_NAME: &'static str = "AshRendererApp";

/// The application's version: 1.0.0, packed.
pub const APPLICATION_VERSION: u32 = 0x0040_0000;

/// The engine's version declared beside the application's: 1.0.0, packed. The
/// renderer's instance itself reports the engine version of `renderer_settings`.
pub const ENGINE_VERSION: u32 = 0x0040_0000;

/// The packed version 1.0.0, as `APPLICATION_VERSION` and `ENGINE_VERSION`
/// hold it.
pub fn application_version() -> (r: u32)
    ensures
        r == ((0u32 << 29u32) | (1u32 << 22u32) | (0u32 << 12u32) | 0u32),
        r == APPLICATION_VERSION,
        r == ENGINE_VERSION,
{
    let r = make_api_version(0, 1, 0, 0);
    assert(((0u32 << 29u32) | (1u32 << 22u32) | (0u32 << 12u32) | 0u32) == 0x0040_0000u32) by (bit_vector);
    r
}

/// The validation layers the renderer needs when validation is on.
pub fn required_validation_layers() -> (r: Vec<String>)
    ensures
        r@.len() == 1,
        r@[0]@ == "VK_LAYER_KHRONOS_validation"@,
{
    let mut layers: Vec<String> = Vec::new();
    layers.push("VK_LAYER_KHRONOS_validation".to_owned());
    layers
}

/// The settings the renderer creates its Vulkan objects with.
pub struct RendererSettings {
    pub engine_version: u32,
    pub api_version: u32,
    pub debug: bool,
    pub validation_layers: Vec<String>,
    pub device_extensions: Vec<String>,
}

/// The renderer's settings: engine version 1, Vulkan 1.1, debugging on with the
/// Khronos validation layer, and the portability-subset and swapchain device
/// extensions, in that order.
pub fn renderer_settings() -> (r: RendererSettings)
    ensures
        r.engine_version == 1,
        r.api_version == ((0u32 << 29u32) | (1u32 << 22u32) | (1u32 << 12u32) | 0u32),
        r.debug,
        texts(r.validation_layers@) == seq!["VK_LAYER_KHRONOS_validation"@],
        texts(r.device_extensions@) == seq!["VK_KHR_portability_subset"@, "VK_KHR_swapchain"@],
{
    let validation_layers = required_validation_layers();
    let mut device_extensions: Vec<String> = Vec::new();
    device_extensions.push(portability_subset_extension_name());
    device_extensions.push(swapchain_extension_name());
    assert(texts(validation_layers@) =~= seq!["VK_LAYER_KHRONOS_validation"@]);
    assert(texts(device_extensions@) =~= seq!["VK_KHR_portability_subset"@, "VK_KHR_swapchain"@]);
    RendererSettings {
        engine_version: 1,
        api_version: make_api_version(0, 1, 1, 0),
        debug: true,
        validation_layers,
        device_extensions,
    }
}

} // verus!
