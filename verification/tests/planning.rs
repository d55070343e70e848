use renderer::vulkan::vk_render_backend::{plan_instance_from_listing, InstanceError};
use renderer::ash_renderer::constants::renderer_settings;
use renderer::vulkan::vk_swapchain::{plan_frame_resources, COMMAND_BUFFER_LEVEL_PRIMARY, FENCE_CREATE_SIGNALED};
use renderer::ash_renderer::ash_renderer::{
    teardown_plan, DestroyStep, FrameSync, RendererObjects, MAX_FRAMES_IN_FLIGHT,
    PIPELINE_STAGE_COLOR_ATTACHMENT_OUTPUT,
};
use renderer::ash_renderer::constants::{application_version, required_validation_layers};
use renderer::ash_renderer::platforms::macos::required_instance_extension_names;
use renderer::renderer::{plan_validation_instance, DEBUG_SEVERITY_ERROR, DEBUG_SEVERITY_INFO, DEBUG_SEVERITY_WARNING, DEBUG_TYPE_GENERAL, DEBUG_TYPE_PERFORMANCE, DEBUG_TYPE_VALIDATION};
use renderer::vulkan::vk_render_backend::{
    plan_instance_from_layers, select_instance_layers, InstanceOptions, LayerProperties,
    INSTANCE_CREATE_ENUMERATE_PORTABILITY,
};
use renderer::window_loop::{example_window_action, Key, LoopAction, LoopEvent, VulkanApp};

use ash::vk;

fn layer(name: &str, major: u32, minor: u32) -> LayerProperties {
    let mut bytes = name.as_bytes().to_vec();
    bytes.resize(256, 0);
    LayerProperties { name: bytes, spec_version: vk::make_api_version(0, major, minor, 0) }
}

fn options(portability: bool, debug: bool, develop: bool) -> InstanceOptions {
    InstanceOptions { portability, debug, develop }
}

#[test]
fn layers_drop_eos_and_old_versions() {
    let layers = vec![
        layer("VK_LAYER_KHRONOS_validation", 1, 3),
        layer("VK_LAYER_EOS_Overlay", 1, 3),
        layer("VK_LAYER_MESA_device_select", 1, 2),
        layer("VK_LAYER_LUNARG_api_dump", 1, 3),
        layer("VK_LAYER_LUNARG_monitor", 1, 3),
        layer("VK_LAYER_OTHER", 2, 3),
    ];
    assert_eq!(select_instance_layers(&layers, false), Some(vec![0, 4]));
    assert_eq!(select_instance_layers(&layers, true), Some(vec![0, 3, 4]));
}

#[test]
fn layers_refuse_names_that_are_not_utf8() {
    let mut bad = layer("VK_LAYER_X", 1, 3);
    bad.name[3] = 0xff;
    let layers = vec![layer("VK_LAYER_KHRONOS_validation", 1, 3), bad];
    assert_eq!(select_instance_layers(&layers, false), None);
    assert!(plan_instance_from_layers(&layers, vec![], options(false, false, false)).is_none());
}

#[test]
fn layers_with_no_layers_selects_none() {
    assert_eq!(select_instance_layers(&vec![], false), Some(vec![]));
}

#[test]
fn instance_plan_on_desktop() {
    let layers = vec![layer("VK_LAYER_KHRONOS_validation", 1, 3), layer("VK_LAYER_LUNARG_api_dump", 1, 3)];
    let required = vec!["VK_KHR_surface".to_string(), "VK_KHR_xlib_surface".to_string()];
    let plan = plan_instance_from_layers(&layers, required, options(false, false, true)).unwrap();
    assert_eq!(plan.application_name, "tempura");
    assert_eq!(plan.engine_name, "tempura");
    assert_eq!(plan.application_version, vk::make_api_version(0, 0, 1, 0));
    assert_eq!(plan.engine_version, vk::make_api_version(0, 0, 1, 0));
    assert_eq!(plan.api_version, vk::make_api_version(0, 1, 3, 0));
    assert_eq!(plan.api_version, 4206592);
    assert_eq!(plan.layers, vec![0]);
    assert!(plan.enable_layers);
    assert_eq!(
        plan.extension_names,
        vec!["VK_KHR_surface".to_string(), "VK_KHR_xlib_surface".to_string(), "VK_EXT_debug_utils".to_string()]
    );
    assert_eq!(plan.flags, 0);
}

#[test]
fn instance_plan_on_portability_platform() {
    let layers = vec![layer("VK_LAYER_LUNARG_api_dump", 1, 3)];
    let plan = plan_instance_from_layers(&layers, vec!["VK_EXT_metal_surface".to_string()], options(true, true, false)).unwrap();
    assert_eq!(plan.layers, vec![0]);
    assert!(plan.enable_layers);
    assert_eq!(
        plan.extension_names,
        vec![
            "VK_EXT_metal_surface".to_string(),
            "VK_EXT_debug_utils".to_string(),
            "VK_KHR_portability_enumeration".to_string(),
            "VK_KHR_get_physical_device_properties2".to_string(),
        ]
    );
    assert_eq!(plan.flags, INSTANCE_CREATE_ENUMERATE_PORTABILITY);
    assert_eq!(plan.flags, vk::InstanceCreateFlags::ENUMERATE_PORTABILITY_KHR.as_raw());
}

#[test]
fn instance_plan_without_features_keeps_layers_off() {
    let plan = plan_instance_from_layers(&vec![], vec![], options(false, false, false)).unwrap();
    assert!(!plan.enable_layers);
    assert_eq!(plan.extension_names, vec!["VK_EXT_debug_utils".to_string()]);
}

#[test]
fn extension_names_match_the_bindings() {
    let names = required_instance_extension_names();
    let expected = [
        ash::extensions::khr::Surface::name(),
        ash::extensions::mvk::MacOSSurface::name(),
        ash::extensions::ext::DebugUtils::name(),
        ash::extensions::khr::GetPhysicalDeviceProperties2::name(),
    ];
    assert_eq!(names.len(), 4);
    for (n, e) in names.iter().zip(expected.iter()) {
        assert_eq!(n.as_bytes(), e.to_bytes());
    }
    assert_eq!(names[1], "VK_MVK_macos_surface");
}

#[test]
fn renderer_named_constants() {
    assert_eq!(renderer::ash_renderer::constants::APP_NAME, "AshRendererApp");
    assert_eq!(renderer::ash_renderer::constants::APPLICATION_VERSION, vk::make_api_version(0, 1, 0, 0));
    assert_eq!(renderer::ash_renderer::constants::ENGINE_VERSION, vk::make_api_version(0, 1, 0, 0));
}

#[test]
fn renderer_constants() {
    assert_eq!(application_version(), vk::make_api_version(0, 1, 0, 0));
    assert_eq!(application_version(), 4194304);
    assert_eq!(required_validation_layers(), vec!["VK_LAYER_KHRONOS_validation".to_string()]);
}

#[test]
fn validation_instance_plan() {
    let plan = plan_validation_instance("Renderer", vec!["VK_KHR_surface".to_string()]);
    assert_eq!(plan.application_name, "Renderer");
    assert_eq!(plan.engine_name, "Renderer");
    assert_eq!(plan.application_version, 0);
    assert_eq!(plan.api_version, vk::API_VERSION_1_2);
    assert_eq!(plan.layer_names, vec!["VK_LAYER_KHRONOS_validation".to_string()]);
    assert_eq!(plan.extension_names, vec!["VK_KHR_surface".to_string(), "VK_EXT_debug_utils".to_string()]);
    assert_eq!(DEBUG_SEVERITY_ERROR, vk::DebugUtilsMessageSeverityFlagsEXT::ERROR.as_raw());
    assert_eq!(DEBUG_SEVERITY_WARNING, vk::DebugUtilsMessageSeverityFlagsEXT::WARNING.as_raw());
    assert_eq!(DEBUG_SEVERITY_INFO, vk::DebugUtilsMessageSeverityFlagsEXT::INFO.as_raw());
    assert_eq!(DEBUG_TYPE_GENERAL, vk::DebugUtilsMessageTypeFlagsEXT::GENERAL.as_raw());
    assert_eq!(DEBUG_TYPE_VALIDATION, vk::DebugUtilsMessageTypeFlagsEXT::VALIDATION.as_raw());
    assert_eq!(DEBUG_TYPE_PERFORMANCE, vk::DebugUtilsMessageTypeFlagsEXT::PERFORMANCE.as_raw());
    assert_eq!(plan.message_severity, 0x1110);
    assert_eq!(plan.message_type, 0x7);
}

fn sync() -> FrameSync {
    FrameSync::new(vec![10, 11], vec![20, 21], vec![30, 31])
}

#[test]
fn frames_alternate_between_slots() {
    let mut s = sync();
    let command_buffers = vec![100, 101, 102];
    let start = s.begin_frame();
    assert_eq!(start.wait_fence, 30);
    assert_eq!(start.acquire_semaphore, 10);
    let sub = s.end_frame(2, &command_buffers);
    assert_eq!(sub.wait_semaphore, 10);
    assert_eq!(sub.wait_stage, PIPELINE_STAGE_COLOR_ATTACHMENT_OUTPUT);
    assert_eq!(sub.wait_stage, vk::PipelineStageFlags::COLOR_ATTACHMENT_OUTPUT.as_raw());
    assert_eq!(sub.command_buffer, 102);
    assert_eq!(sub.signal_semaphore, 20);
    assert_eq!(sub.fence, 30);
    assert_eq!(sub.image_index, 2);
    assert_eq!(s.current_frame, 1);
    let start = s.begin_frame();
    assert_eq!(start.wait_fence, 31);
    let sub = s.end_frame(0, &command_buffers);
    assert_eq!(sub.command_buffer, 100);
    assert_eq!(sub.signal_semaphore, 21);
    assert_eq!(s.current_frame, 0);
    assert_eq!(s.begin_frame().wait_fence, 30);
    assert_eq!(MAX_FRAMES_IN_FLIGHT, 2);
}

#[test]
fn teardown_destroys_children_before_parents() {
    let objects = RendererObjects {
        sync: sync(),
        command_pool: 40,
        framebuffers: vec![50, 51],
        graphics_pipeline: 60,
        pipeline_layout: 61,
        render_pass: 62,
        image_views: vec![70, 71],
        swapchain: 80,
        surface: 90,
        debug_messenger: 95,
    };
    let steps = teardown_plan(&objects);
    assert_eq!(
        steps,
        vec![
            DestroyStep::Semaphore(10),
            DestroyStep::Semaphore(20),
            DestroyStep::Fence(30),
            DestroyStep::Semaphore(11),
            DestroyStep::Semaphore(21),
            DestroyStep::Fence(31),
            DestroyStep::CommandPool(40),
            DestroyStep::Framebuffer(50),
            DestroyStep::Framebuffer(51),
            DestroyStep::Pipeline(60),
            DestroyStep::PipelineLayout(61),
            DestroyStep::RenderPass(62),
            DestroyStep::ImageView(70),
            DestroyStep::ImageView(71),
            DestroyStep::Swapchain(80),
            DestroyStep::Device,
            DestroyStep::Surface(90),
            DestroyStep::DebugMessenger(95),
            DestroyStep::Instance,
        ]
    );
}

#[test]
fn app_loop_decisions() {
    assert_eq!(VulkanApp::handle_event(&LoopEvent::CloseRequested { own_window: false }), LoopAction::Exit);
    assert_eq!(VulkanApp::handle_event(&LoopEvent::KeyboardInput { key: Key::Escape, pressed: true }), LoopAction::Exit);
    assert_eq!(VulkanApp::handle_event(&LoopEvent::KeyboardInput { key: Key::Escape, pressed: false }), LoopAction::Continue);
    assert_eq!(VulkanApp::handle_event(&LoopEvent::KeyboardInput { key: Key::Other, pressed: true }), LoopAction::Continue);
    assert_eq!(VulkanApp::handle_event(&LoopEvent::MainEventsCleared), LoopAction::RequestRedraw);
    assert_eq!(VulkanApp::handle_event(&LoopEvent::RedrawRequested), LoopAction::Draw);
    assert_eq!(VulkanApp::handle_event(&LoopEvent::Other), LoopAction::Continue);
}

#[test]
fn example_loop_decisions() {
    assert_eq!(example_window_action(&LoopEvent::CloseRequested { own_window: true }), LoopAction::Exit);
    assert_eq!(example_window_action(&LoopEvent::CloseRequested { own_window: false }), LoopAction::Continue);
    assert_eq!(example_window_action(&LoopEvent::MainEventsCleared), LoopAction::RequestRedraw);
    assert_eq!(example_window_action(&LoopEvent::RedrawRequested), LoopAction::Continue);
    assert_eq!(example_window_action(&LoopEvent::KeyboardInput { key: Key::Escape, pressed: true }), LoopAction::Continue);
}

#[test]
fn instance_listing_failure_comes_back_unchanged() {
    let r = plan_instance_from_listing(Err(vk::Result::ERROR_INITIALIZATION_FAILED), Err(vk::Result::ERROR_EXTENSION_NOT_PRESENT), options(false, false, false));
    assert!(matches!(r, Err(InstanceError::Vulkan(vk::Result::ERROR_INITIALIZATION_FAILED))));
    let mut bad = layer("VK_LAYER_X", 1, 3);
    bad.name[0] = 0xc0;
    let r = plan_instance_from_listing(Ok(vec![bad]), Err(vk::Result::ERROR_EXTENSION_NOT_PRESENT), options(false, false, false));
    assert!(matches!(r, Err(InstanceError::LayerNameNotUtf8)));
    let r = plan_instance_from_listing(Ok(vec![]), Err(vk::Result::ERROR_EXTENSION_NOT_PRESENT), options(false, false, false));
    assert!(matches!(r, Err(InstanceError::Vulkan(vk::Result::ERROR_EXTENSION_NOT_PRESENT))));
    let r = plan_instance_from_listing(Ok(vec![layer("VK_LAYER_KHRONOS_validation", 1, 3)]), Ok(vec![]), options(false, false, true));
    match r {
        Ok((layers, plan)) => {
            assert_eq!(layers.len(), 1);
            assert_eq!(plan.layers, vec![0]);
            assert!(plan.enable_layers);
        }
        Err(_) => panic!("a plan for valid layers"),
    }
}

#[test]
fn renderer_settings_values() {
    let s = renderer_settings();
    assert_eq!(s.engine_version, 1);
    assert_eq!(s.api_version, vk::API_VERSION_1_1);
    assert!(s.debug);
    assert_eq!(s.validation_layers, vec!["VK_LAYER_KHRONOS_validation".to_string()]);
    assert_eq!(
        s.device_extensions,
        vec!["VK_KHR_portability_subset".to_string(), "VK_KHR_swapchain".to_string()]
    );
}

#[test]
fn frame_resource_plan_values() {
    let p = plan_frame_resources(3, 5);
    assert_eq!(p.image_count, 3);
    assert_eq!(p.command_pool_queue_family, 5);
    assert_eq!(p.command_buffer_level, vk::CommandBufferLevel::PRIMARY.as_raw());
    assert_eq!(COMMAND_BUFFER_LEVEL_PRIMARY, vk::CommandBufferLevel::PRIMARY.as_raw());
    assert_eq!(p.command_buffers_per_pool, 1);
    assert_eq!(p.fence_flags, vk::FenceCreateFlags::SIGNALED.as_raw());
    assert_eq!(FENCE_CREATE_SIGNALED, vk::FenceCreateFlags::SIGNALED.as_raw());
}
