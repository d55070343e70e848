use std::sync::Arc;

use renderer::vulkan::vk_device::plan_device;
use renderer::vulkan::vk_image::{Extent2D, VkImage, VkSwapchainImage};
use renderer::vulkan::vk_image_view::{
    ComponentMapping, ImageSubresourceRange, VkImageResource, VkImageView, VkImageViewCreateInfo,
};
use renderer::vulkan::vk_physical_device::{
    MemoryHeap, VkPhysicalDevice, MEMORY_HEAP_DEVICE_LOCAL, PHYSICAL_DEVICE_TYPE_DISCRETE_GPU,
    PHYSICAL_DEVICE_TYPE_INTEGRATED_GPU,
};
use renderer::vulkan::vk_render_backend::{BackendError, VkRenderBackend};
use renderer::vulkan::vk_swapchain::{
    assemble_frame_resources, choose_swapchain_format, choose_swapchain_present_mode,
    flatten_command_buffers, plan_swapchain, swapchain_image_view_desc, swapchain_images,
    SharingMode, SurfaceCapabilities, SurfaceFormat, VkSwapchain, COLOR_SPACE_SRGB_NONLINEAR,
    COMPONENT_SWIZZLE_A, COMPONENT_SWIZZLE_B, COMPONENT_SWIZZLE_G, COMPONENT_SWIZZLE_R,
    COMPOSITE_ALPHA_OPAQUE, FORMAT_B8G8R8A8_SRGB, IMAGE_ASPECT_COLOR,
    IMAGE_USAGE_COLOR_ATTACHMENT, IMAGE_VIEW_TYPE_2D, PRESENT_MODE_FIFO, PRESENT_MODE_MAILBOX,
};
use renderer::{DeviceType, PhysicalDevice, RenderBackend};

use ash::vk;

fn gpu(device_type: i32, heaps: Vec<MemoryHeap>) -> VkPhysicalDevice {
    VkPhysicalDevice::new(7, device_type, heaps)
}

#[test]
fn constants_match_the_vulkan_bindings() {
    assert_eq!(PHYSICAL_DEVICE_TYPE_INTEGRATED_GPU, vk::PhysicalDeviceType::INTEGRATED_GPU.as_raw());
    assert_eq!(PHYSICAL_DEVICE_TYPE_DISCRETE_GPU, vk::PhysicalDeviceType::DISCRETE_GPU.as_raw());
    assert_eq!(MEMORY_HEAP_DEVICE_LOCAL, vk::MemoryHeapFlags::DEVICE_LOCAL.as_raw());
    assert_eq!(FORMAT_B8G8R8A8_SRGB, vk::Format::B8G8R8A8_SRGB.as_raw());
    assert_eq!(COLOR_SPACE_SRGB_NONLINEAR, vk::ColorSpaceKHR::SRGB_NONLINEAR.as_raw());
    assert_eq!(PRESENT_MODE_MAILBOX, vk::PresentModeKHR::MAILBOX.as_raw());
    assert_eq!(PRESENT_MODE_FIFO, vk::PresentModeKHR::FIFO.as_raw());
    assert_eq!(IMAGE_USAGE_COLOR_ATTACHMENT, vk::ImageUsageFlags::COLOR_ATTACHMENT.as_raw());
    assert_eq!(COMPOSITE_ALPHA_OPAQUE, vk::CompositeAlphaFlagsKHR::OPAQUE.as_raw());
    assert_eq!(IMAGE_VIEW_TYPE_2D, vk::ImageViewType::TYPE_2D.as_raw());
    assert_eq!(COMPONENT_SWIZZLE_R, vk::ComponentSwizzle::R.as_raw());
    assert_eq!(COMPONENT_SWIZZLE_G, vk::ComponentSwizzle::G.as_raw());
    assert_eq!(COMPONENT_SWIZZLE_B, vk::ComponentSwizzle::B.as_raw());
    assert_eq!(COMPONENT_SWIZZLE_A, vk::ComponentSwizzle::A.as_raw());
    assert_eq!(IMAGE_ASPECT_COLOR, vk::ImageAspectFlags::COLOR.as_raw());
}

#[test]
fn device_type_follows_the_vulkan_type() {
    assert_eq!(gpu(1, vec![]).device_type(), DeviceType::Integrated);
    assert_eq!(gpu(2, vec![]).device_type(), DeviceType::Discrete);
    assert_eq!(gpu(0, vec![]).device_type(), DeviceType::Other);
    assert_eq!(gpu(3, vec![]).device_type(), DeviceType::Other);
    assert_eq!(gpu(4, vec![]).device_type(), DeviceType::Other);
}

#[test]
fn new_physical_device_starts_on_family_zero() {
    let d = gpu(2, vec![MemoryHeap { size: 5, flags: 1 }]);
    assert_eq!(d.physical_device, 7);
    assert_eq!(d.graphics_family, 0);
    assert_eq!(d.present_family, 0);
    assert_eq!(d.memory_heaps.len(), 1);
}

#[test]
fn vram_size_is_the_last_device_local_heap() {
    let d = gpu(
        2,
        vec![
            MemoryHeap { size: 100, flags: 0 },
            MemoryHeap { size: 200, flags: 1 },
            MemoryHeap { size: 300, flags: 3 },
            MemoryHeap { size: 400, flags: 2 },
        ],
    );
    assert_eq!(d.vram_size(), 300);
}

#[test]
fn vram_size_is_zero_without_device_local_heap() {
    let d = gpu(1, vec![MemoryHeap { size: 100, flags: 0 }, MemoryHeap { size: 50, flags: 2 }]);
    assert_eq!(d.vram_size(), 0);
    assert_eq!(gpu(1, vec![]).vram_size(), 0);
}

fn fmt(format: i32, color_space: i32) -> SurfaceFormat {
    SurfaceFormat { format, color_space }
}

#[test]
fn swapchain_format_prefers_bgra_srgb() {
    let formats = vec![fmt(44, 0), fmt(50, 1), fmt(50, 0), fmt(37, 0)];
    assert_eq!(choose_swapchain_format(&formats), fmt(50, 0));
}

#[test]
fn swapchain_format_takes_first_preferred() {
    let formats = vec![fmt(50, 0), fmt(44, 0), fmt(50, 0)];
    assert_eq!(choose_swapchain_format(&formats), fmt(50, 0));
}

#[test]
fn swapchain_format_falls_back_to_first() {
    let formats = vec![fmt(44, 0), fmt(50, 1000104002), fmt(37, 0)];
    assert_eq!(choose_swapchain_format(&formats), fmt(44, 0));
}

#[test]
fn present_mode_prefers_mailbox() {
    assert_eq!(choose_swapchain_present_mode(&vec![2, 0, 1]), PRESENT_MODE_MAILBOX);
    assert_eq!(choose_swapchain_present_mode(&vec![2, 0, 3]), PRESENT_MODE_FIFO);
    assert_eq!(choose_swapchain_present_mode(&vec![]), PRESENT_MODE_FIFO);
}

fn caps(min: u32, max: u32, width: u32, height: u32) -> SurfaceCapabilities {
    SurfaceCapabilities {
        min_image_count: min,
        max_image_count: max,
        current_extent: Extent2D { width, height },
        current_transform: 1,
    }
}

#[test]
fn swapchain_plan_with_distinct_families() {
    let mut d = gpu(2, vec![]);
    d.graphics_family = 0;
    d.present_family = 2;
    let window = Extent2D { width: 1080, height: 720 };
    let plan = plan_swapchain(&vec![fmt(44, 0)], &vec![2, 1], &caps(2, 8, 800, 600), window, &d);
    assert_eq!(plan.surface_format, fmt(44, 0));
    assert_eq!(plan.present_mode, PRESENT_MODE_MAILBOX);
    assert_eq!(plan.min_image_count, 3);
    assert_eq!(plan.image_extent, Extent2D { width: 800, height: 600 });
    assert_eq!(plan.image_array_layers, 1);
    assert_eq!(plan.image_usage, IMAGE_USAGE_COLOR_ATTACHMENT);
    assert_eq!(plan.image_sharing_mode, SharingMode::Concurrent);
    assert_eq!(plan.queue_family_indices, vec![0, 2]);
    assert_eq!(plan.pre_transform, 1);
    assert_eq!(plan.composite_alpha, COMPOSITE_ALPHA_OPAQUE);
    assert!(plan.clipped);
}

#[test]
fn swapchain_plan_with_one_family_and_free_extent() {
    let d = gpu(2, vec![]);
    let window = Extent2D { width: 1080, height: 720 };
    let plan = plan_swapchain(&vec![fmt(50, 0)], &vec![2], &caps(3, 3, u32::MAX, u32::MAX), window, &d);
    assert_eq!(plan.min_image_count, 3);
    assert_eq!(plan.image_extent, window);
    assert_eq!(plan.present_mode, PRESENT_MODE_FIFO);
    assert_eq!(plan.image_sharing_mode, SharingMode::Exclusive);
    assert!(plan.queue_family_indices.is_empty());
}

#[test]
fn swapchain_image_count_is_capped_by_zero_maximum() {
    let d = gpu(2, vec![]);
    let plan = plan_swapchain(&vec![fmt(50, 0)], &vec![2], &caps(2, 0, 10, 10), Extent2D { width: 1, height: 1 }, &d);
    assert_eq!(plan.min_image_count, 0);
}

#[test]
fn device_plan_queues_and_extensions() {
    let mut d = gpu(2, vec![]);
    let plan = plan_device(&d, false);
    assert_eq!(plan.queue_family_indices, vec![0]);
    assert_eq!(plan.extension_names, vec!["VK_KHR_swapchain".to_string()]);
    d.present_family = 1;
    let plan = plan_device(&d, true);
    assert_eq!(plan.queue_family_indices, vec![0, 1]);
    assert_eq!(
        plan.extension_names,
        vec!["VK_KHR_swapchain".to_string(), "VK_KHR_portability_subset".to_string()]
    );
    assert_eq!(
        plan.extension_names[0].as_bytes(),
        ash::extensions::khr::Swapchain::name().to_bytes()
    );
}

#[test]
fn backend_needs_a_device() {
    let r = VkRenderBackend::new(vec![]);
    assert!(matches!(r, Err(BackendError::NoCompatibleDevice)));
    assert_eq!(BackendError::NoCompatibleDevice.message(), "No Vulkan-compatible devices found");
}

#[test]
fn backend_keeps_devices_in_order() {
    let r = VkRenderBackend::new(vec![gpu(1, vec![]), gpu(2, vec![MemoryHeap { size: 9, flags: 1 }])]);
    let backend = match r {
        Ok(b) => b,
        Err(_) => panic!("a backend with devices"),
    };
    let devices = backend.physical_devices();
    assert_eq!(devices.len(), 2);
    assert_eq!(devices[0].device_type(), DeviceType::Integrated);
    assert_eq!(devices[1].device_type(), DeviceType::Discrete);
    assert_eq!(devices[1].vram_size(), 9);
}

fn swapchain_image(handle: u64) -> VkSwapchainImage {
    VkSwapchainImage::new(handle, Extent2D { width: 4, height: 3 }, 50, 0x10)
}

#[test]
fn image_resource_image_handle() {
    let a: VkImageResource<()> = VkImageResource::SwapchainImage(Arc::new(swapchain_image(11)));
    assert_eq!(a.image(), 11);
    let b = VkImageResource::Image(Arc::new(VkImage {
        device: Arc::new(()),
        native_handle: 12,
        extent: Extent2D { width: 1, height: 1 },
        format: 37,
        usage: 4,
    }));
    assert_eq!(b.image(), 12);
    let shared = b.share();
    assert_eq!(shared.image(), 12);
}

#[test]
fn image_view_records_its_create_info() {
    let resource: VkImageResource<u32> = VkImageResource::SwapchainImage(Arc::new(swapchain_image(21)));
    let device = Arc::new(5u32);
    let info = VkImageViewCreateInfo {
        flags: 0,
        view_type: 1,
        format: 44,
        components: ComponentMapping { r: 0, g: 0, b: 0, a: 0 },
        subresource_range: ImageSubresourceRange {
            aspect_mask: 1,
            base_mip_level: 0,
            level_count: 1,
            base_array_layer: 0,
            layer_count: 1,
        },
    };
    let view = VkImageView::new(&device, 99, &resource, &info);
    assert!(Arc::ptr_eq(&view.device, &device));
    assert_eq!(*view.device, 5);
    assert_eq!(view.native_handle, 99);
    assert_eq!(view.image_resource.image(), 21);
    assert_eq!(view.create_info.image, 21);
    assert_eq!(view.create_info.format, 44);
    assert_eq!(view.create_info.view_type, 1);
    assert_eq!(view.create_info.subresource_range, info.subresource_range);
}

#[test]
fn swapchain_views_are_identity_color_views() {
    let images = swapchain_images(&vec![5, 6], Extent2D { width: 4, height: 3 }, 50, 0x10);
    assert_eq!(images.len(), 2);
    assert_eq!(images[1], swapchain_image(6));
    let desc = swapchain_image_view_desc(&images[0]);
    assert_eq!(desc.image, 5);
    assert_eq!(desc.view_type, IMAGE_VIEW_TYPE_2D);
    assert_eq!(desc.format, 50);
    assert_eq!(desc.components, ComponentMapping { r: 3, g: 4, b: 5, a: 6 });
    assert_eq!(desc.subresource_range.aspect_mask, IMAGE_ASPECT_COLOR);
    assert_eq!(desc.subresource_range.level_count, 1);
    assert_eq!(desc.subresource_range.layer_count, 1);
}

#[test]
fn frame_resources_line_up_by_image() {
    let images = swapchain_images(&vec![1, 2], Extent2D { width: 4, height: 3 }, 50, 0x10);
    let buffers = flatten_command_buffers(&vec![vec![31], vec![32]]);
    assert_eq!(buffers, vec![31, 32]);
    let frames = assemble_frame_resources(
        &images,
        &vec![11, 12],
        &vec![21, 22],
        &buffers,
        &vec![41, 42],
        &vec![51, 52],
        &vec![61, 62],
    );
    assert_eq!(frames.len(), 2);
    assert_eq!(frames[1].image, 2);
    assert_eq!(frames[1].image_view, 12);
    assert_eq!(frames[1].command_pool, 22);
    assert_eq!(frames[1].command_buffer, 32);
    assert_eq!(frames[1].image_available_semaphore, 42);
    assert_eq!(frames[1].render_finished_semaphore, 52);
    assert_eq!(frames[1].in_flight_fence, 62);
    let swapchain = VkSwapchain::new(1, 2, 0, 1, frames);
    assert_eq!(swapchain.current_frame, 0);
    assert_eq!(swapchain.acquire_semaphore(), 42);
    assert_eq!(swapchain.frame_resource(0).image_view, 11);
}

#[test]
fn flatten_keeps_every_buffer_in_order() {
    assert_eq!(flatten_command_buffers(&vec![vec![1, 2], vec![], vec![3]]), vec![1, 2, 3]);
    assert_eq!(flatten_command_buffers(&vec![]), Vec::<u64>::new());
}

#[test]
fn acquire_semaphore_wraps_round() {
    let images = swapchain_images(&vec![1], Extent2D { width: 4, height: 3 }, 50, 0x10);
    let frames = assemble_frame_resources(&images, &vec![11], &vec![21], &vec![31], &vec![41], &vec![51], &vec![61]);
    let swapchain = VkSwapchain::new(1, 2, 0, 1, frames);
    assert_eq!(swapchain.acquire_semaphore(), 41);
}
