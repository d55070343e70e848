//! The logical device: which queues and extensions it is created with.
use vstd::prelude::*;

use super::ash_api::{portability_subset_extension_name, swapchain_extension_name};
use super::vk_physical_device::VkPhysicalDevice;
use super::vk_render_backend::texts;

verus! {

/// The `VkDeviceCreateInfo` the device is created with: one queue (of priority
/// 1.0) from each listed family, and the listed extensions.
pub struct DevicePlan {
    pub queue_family_indices: Vec<u32>,
    pub extension_names: Vec<String>,
}

/// One queue from the graphics family, and one from the present family when it
/// is another family.
pub open spec fn device_queue_families(graphics: u32, present: u32) -> Seq<u32> {
    if graphics == present {
        seq![graphics]
    } else {
        seq![graphics, present]
    }
}

/// The swapchain extension, and the portability subset on portability platforms.
pub open spec fn device_extensions(portability: bool) -> Seq<Seq<char>> {
    seq!["VK_KHR_swapchain"@] + if portability {
        seq!["VK_KHR_portability_subset"@]
    } else {
        seq![]
    }
}

/// Plans the logical device of `physical_device`: a queue from its graphics
/// family, another from its present family if that differs, and the swapchain
/// extension (with the portability subset on portability platforms).
pub fn plan_device(physical_device: &VkPhysicalDevice, portability: bool) -> (r: DevicePlan)
    ensures
        r.queue_family_indices@ == device_queue_families(
            physical_device.graphics_family,
            physical_device.present_family,
        ),
        texts(r.extension_names@) == device_extensions(portability),
        physical_device.graphics_family == physical_device.present_family
            ==> r.queue_family_indices@ == seq![physical_device.graphics_family],
        physical_device.graphics_family != physical_device.present_family
            ==> r.queue_family_indices@ == seq![
            physical_device.graphics_family,
            physical_device.present_family,
        ],
        portability ==> texts(r.extension_names@) == seq![
            "VK_KHR_swapchain"@,
            "VK_KHR_portability_subset"@,
        ],
        !portability ==> texts(r.extension_names@) == seq!["VK_KHR_swapchain"@],
{
    let mut extension_names: Vec<String> = Vec::new();
    extension_names.push(swapchain_extension_name());
    if portability {
        extension_names.push(portability_subset_extension_name());
    }
    let graphics_family_index = physical_device.graphics_family;
    let mut queue_family_indices: Vec<u32> = Vec::new();
    queue_family_indices.push(graphics_family_index);
    let present_family_index = physical_device.present_family;
    if present_family_index != graphics_family_index {
        queue_family_indices.push(present_family_index);
    }
    proof {
        assert(texts(extension_names@) =~= device_extensions(portability));
        assert(queue_family_indices@ =~= device_queue_families(
            physical_device.graphics_family,
            physical_device.present_family,
        ));
    }
    DevicePlan { queue_family_indices, extension_names }
}

/// The queues requested are one per family, and cover both the graphics and
/// the present family.
pub proof fn lemma_device_queue_families(graphics: u32, present: u32)
    ensures
        device_queue_families(graphics, present).contains(graphics),
        device_queue_families(graphics, present).contains(present),
        device_queue_families(graphics, present).no_duplicates(),
{
    let s = device_queue_families(graphics, present);
    assert(s[0] == graphics);
    if graphics != present {
        assert(s[1] == present);
    }
}

} // verus!
