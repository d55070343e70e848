//! The minimal renderer: an instance with the Khronos validation layer and a
//! debug messenger that reports errors, warnings and information.
use vstd::prelude::*;

use crate::vulkan::ash_api::{debug_utils_extension_name, make_api_version};
use crate::vulkan::vk_render_backend::texts;

verus! {

/// `VK_DEBUG_UTILS_MESSAGE_SEVERITY_INFO_BIT_EXT`, `_WARNING_` and `_ERROR_`.
pub const DEBUG_SEVERITY_INFO: u32 = 0x10;

pub const DEBUG_SEVERITY_WARNING: u32 = 0x100;

pub const DEBUG_SEVERITY_ERROR: u32 = 0x1000;

/// `VK_DEBUG_UTILS_MESSAGE_TYPE_GENERAL_BIT_EXT`, `_VALIDATION_` and
/// `_PERFORMANCE_`.
pub const DEBUG_TYPE_GENERAL: u32 = 0x1;

pub const DEBUG_TYPE_VALIDATION: u32 = 0x2;

pub const DEBUG_TYPE_PERFORMANCE: u32 = 0x4;

/// The instance and debug messenger of the minimal renderer.
pub struct ValidationInstancePlan {
    pub application_name: String,
    pub engine_name: String,
    pub application_version: u32,
    pub engine_version: u32,
    pub api_version: u32,
    pub layer_names: Vec<String>,
    pub extension_names: Vec<String>,
    pub message_severity: u32,
    pub message_type: u32,
}

/// Plans the minimal renderer's instance for `app_name`: application and
/// engine both named `app_name` at version 0, Vulkan 1.2, the Khronos
/// validation layer, the window system's extensions followed by debug utils,
/// and a messenger for errors, warnings and information of every type.
pub fn plan_validation_instance(app_name: &str, required_extensions: Vec<String>) -> (r:
    ValidationInstancePlan)
    ensures
        r.application_name@ == app_name@,
        r.engine_name@ == app_name@,
        r.application_version == 0,
        r.engine_version == 0,
        r.api_version == ((0u32 << 29u32) | (1u32 << 22u32) | (2u32 << 12u32) | 0u32),
        texts(r.layer_names@) == seq!["VK_LAYER_KHRONOS_validation"@],
        texts(r.extension_names@) == texts(required_extensions@) + seq!["VK_EXT_debug_utils"@],
        r.message_severity == DEBUG_SEVERITY_ERROR | DEBUG_SEVERITY_WARNING | DEBUG_SEVERITY_INFO,
        r.message_type == DEBUG_TYPE_GENERAL | DEBUG_TYPE_VALIDATION | DEBUG_TYPE_PERFORMANCE,
{
    let mut layer_names: Vec<String> = Vec::new();
    layer_names.push("VK_LAYER_KHRONOS_validation".to_owned());
    let mut extension_names = required_extensions;
    let ghost required = texts(extension_names@);
    extension_names.push(debug_utils_extension_name());
    assert(texts(extension_names@) =~= required + seq!["VK_EXT_debug_utils"@]);
    assert(texts(layer_names@) =~= seq!["VK_LAYER_KHRONOS_validation"@]);
    ValidationInstancePlan {
        application_name: app_name.to_owned(),
        engine_name: app_name.to_owned(),
        application_version: 0,
        engine_version: 0,
        api_version: make_api_version(0, 1, 2, 0),
        layer_names,
        extension_names,
        message_severity: DEBUG_SEVERITY_ERROR | DEBUG_SEVERITY_WARNING | DEBUG_SEVERITY_INFO,
        message_type: DEBUG_TYPE_GENERAL | DEBUG_TYPE_VALIDATION | DEBUG_TYPE_PERFORMANCE,
    }
}

} // verus!
