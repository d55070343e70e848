//! Trusted access to the `ash` bindings: each function below calls one function
//! of `ash`, whose behaviour its contract restates from `ash`'s source.
use vstd::prelude::*;

use super::vk_render_backend::LayerProperties;

verus! {

/// Calls `ash::vk::make_api_version`, which packs a version as
/// `(variant << 29) | (major << 22) | (minor << 12) | patch`.
#[verifier::external_body]
pub(crate) fn make_api_version(variant: u32, major: u32, minor: u32, patch: u32) -> (r: u32)
    ensures
        r == ((variant << 29u32) | (major << 22u32) | (minor << 12u32) | patch),
{
    ash::vk::make_api_version(variant, major, minor, patch)
}

/// Calls `ash::vk::api_version_major`, which is `(version >> 22) & 0x7f`.
#[verifier::external_body]
pub(crate) fn api_version_major(version: u32) -> (r: u32)
    ensures
        r == ((version >> 22u32) & 0x7fu32),
{
    ash::vk::api_version_major(version)
}

/// Calls `ash::vk::api_version_minor`, which is `(version >> 12) & 0x3ff`.
#[verifier::external_body]
pub(crate) fn api_version_minor(version: u32) -> (r: u32)
    ensures
        r == ((version >> 12u32) & 0x3ffu32),
{
    ash::vk::api_version_minor(version)
}

/// Calls `ash::vk::MemoryHeapFlags::contains`, which holds when every bit of
/// `other` is also set in `flags` (`flags & other == other`).
#[verifier::external_body]
pub(crate) fn memory_heap_flags_contain(flags: u32, other: u32) -> (r: bool)
    ensures
        r == (flags & other == other),
{
    ash::vk::MemoryHeapFlags::from_raw(flags).contains(ash::vk::MemoryHeapFlags::from_raw(other))
}

/// Calls `ash::extensions::khr::Swapchain::name`, whose source spells the extension
/// `VK_KHR_swapchain`.
#[verifier::external_body]
pub(crate) fn swapchain_extension_name() -> (r: String)
    ensures
        r@ == "VK_KHR_swapchain"@,
{
    ash::extensions::khr::Swapchain::name().to_str().unwrap().to_owned()
}

/// Calls `ash::extensions::ext::DebugUtils::name`, whose source spells the extension
/// `VK_EXT_debug_utils`.
#[verifier::external_body]
pub(crate) fn debug_utils_extension_name() -> (r: String)
    ensures
        r@ == "VK_EXT_debug_utils"@,
{
    ash::extensions::ext::DebugUtils::name().to_str().unwrap().to_owned()
}

/// Calls `ash::extensions::khr::Surface::name`, whose source spells the extension
/// `VK_KHR_surface`.
#[verifier::external_body]
pub(crate) fn surface_extension_name() -> (r: String)
    ensures
        r@ == "VK_KHR_surface"@,
{
    ash::extensions::khr::Surface::name().to_str().unwrap().to_owned()
}

/// Calls `ash::extensions::mvk::MacOSSurface::name`, whose source spells the extension
/// `VK_MVK_macos_surface`.
#[verifier::external_body]
pub(crate) fn macos_surface_extension_name() -> (r: String)
    ensures
        r@ == "VK_MVK_macos_surface"@,
{
    ash::extensions::mvk::MacOSSurface::name().to_str().unwrap().to_owned()
}

/// Calls `ash::extensions::khr::GetPhysicalDeviceProperties2::name`, whose source spells the extension
/// `VK_KHR_get_physical_device_properties2`.
#[verifier::external_body]
pub(crate) fn get_physical_device_properties2_extension_name() -> (r: String)
    ensures
        r@ == "VK_KHR_get_physical_device_properties2"@,
{
    ash::extensions::khr::GetPhysicalDeviceProperties2::name().to_str().unwrap().to_owned()
}

/// Calls `ash::vk::KhrPortabilityEnumerationFn::name`, whose source spells the extension
/// `VK_KHR_portability_enumeration`.
#[verifier::external_body]
pub(crate) fn portability_enumeration_extension_name() -> (r: String)
    ensures
        r@ == "VK_KHR_portability_enumeration"@,
{
    ash::vk::KhrPortabilityEnumerationFn::name().to_str().unwrap().to_owned()
}

/// Calls `ash::vk::KhrPortabilitySubsetFn::name`, whose source spells the extension
/// `VK_KHR_portability_subset`.
#[verifier::external_body]
pub(crate) fn portability_subset_extension_name() -> (r: String)
    ensures
        r@ == "VK_KHR_portability_subset"@,
{
    ash::vk::KhrPortabilitySubsetFn::name().to_str().unwrap().to_owned()
}

/// The Vulkan loader's error codes (`ash::vk::Result`), carried as they are.
#[verifier::external_type_specification]
#[verifier::external_body]
pub struct ExVkResult(ash::vk::Result);

/// The Vulkan loader (`ash::Entry`), carried as it is.
#[verifier::external_type_specification]
#[verifier::external_body]
pub struct ExEntry(ash::Entry);

/// Calls `ash::Entry::enumerate_instance_layer_properties`, which asks the
/// Vulkan loader for the instance layers installed on this machine; each
/// layer's name array becomes bytes. What comes back depends on the machine, so
/// nothing is stated of it.
#[verifier::external_body]
pub(crate) fn enumerate_instance_layers(entry: &ash::Entry) -> (r: Result<Vec<LayerProperties>, ash::vk::Result>)
{
    entry.enumerate_instance_layer_properties().map(|props| {
        props.iter().map(|p| LayerProperties {
            name: p.layer_name.iter().map(|&c| c as u8).collect(),
            spec_version: p.spec_version,
        }).collect()
    })
}

} // verus!
