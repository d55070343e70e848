//! macOS: the instance extensions a MoltenVK surface needs.
use vstd::prelude::*;

use crate::vulkan::ash_api::{
    debug_utils_extension_name, get_physical_device_properties2_extension_name,
    macos_surface_extension_name, surface_extension_name,
};
use crate::vulkan::vk_render_backend::texts;

verus! {

/// The instance extensions for rendering into a macOS view: surfaces, macOS
/// surfaces, debug utils and the extended physical-device queries.
pub fn required_instance_extension_names() -> (r: Vec<String>)
    ensures
        texts(r@) == seq![
            "VK_KHR_surface"@,
            "VK_MVK_macos_surface"@,
            "VK_EXT_debug_utils"@,
            "VK_KHR_get_physical_device_properties2"@,
        ],
{
    let mut names: Vec<String> = Vec::new();
    names.push(surface_extension_name());
    names.push(macos_surface_extension_name());
    names.push(debug_utils_extension_name());
    names.push(get_physical_device_properties2_extension_name());
    assert(texts(names@) =~= seq![
        "VK_KHR_surface"@,
        "VK_MVK_macos_surface"@,
        "VK_EXT_debug_utils"@,
        "VK_KHR_get_physical_device_properties2"@,
    ]);
    names
}

} // verus!
