//! The backend: which instance layers and extensions the Vulkan instance is
//! created with, and the GPUs it offers.
use crate::RenderBackend;
use std::sync::Arc;
use vstd::prelude::*;

use super::ash_api::{
    api_version_major, api_version_minor, debug_utils_extension_name, enumerate_instance_layers,
    get_physical_device_properties2_extension_name, make_api_version,
    portability_enumeration_extension_name,
};
use super::std_api::is_utf8;
use super::vk_physical_device::VkPhysicalDevice;

verus! {

/// `VK_INSTANCE_CREATE_ENUMERATE_PORTABILITY_BIT_KHR`.
pub const INSTANCE_CREATE_ENUMERATE_PORTABILITY: u32 = 1;

/// An instance layer as the loader reports it: the bytes of its name array and
/// the Vulkan version it was written against.
pub struct LayerProperties {
    pub name: Vec<u8>,
    pub spec_version: u32,
}

/// How the instance is built: on a portability platform (macOS, iOS), with the
/// `debug` feature, with the `develop` feature.
#[derive(Clone, Copy, Debug, PartialEq, Eq, Structural)]
pub struct InstanceOptions {
    pub portability: bool,
    pub debug: bool,
    pub develop: bool,
}

/// The `VkInstanceCreateInfo` the instance is created with. `layers` are the
/// indices, in the loader's list, of the layers found fit; they are enabled when
/// `enable_layers` holds.
pub struct InstancePlan {
    pub application_name: String,
    pub engine_name: String,
    pub application_version: u32,
    pub engine_version: u32,
    pub api_version: u32,
    pub layers: Vec<usize>,
    pub enable_layers: bool,
    pub extension_names: Vec<String>,
    pub flags: u32,
}

/// Why no instance plan could be made.
pub enum InstanceError {
    /// The loader could not list its layers.
    Vulkan(ash::vk::Result),
    /// The loader reported a layer whose name is not UTF-8.
    LayerNameNotUtf8,
}

/// Why no backend could be made.
#[derive(Clone, Copy, Debug, PartialEq, Eq, Structural)]
pub enum BackendError {
    NoCompatibleDevice,
}

/// The backend: the GPUs that the Vulkan instance offers.
pub struct VkRenderBackend {
    pub physical_devices: Vec<Arc<VkPhysicalDevice>>,
}

/// `needle` occurs in `hay` at some position.
pub open spec fn contains_bytes(hay: Seq<u8>, needle: Seq<u8>) -> bool {
    exists|i: int|
        0 <= i && i + needle.len() <= hay.len() && #[trigger] hay.subrange(i, i + needle.len())
            == needle
}

/// `VK_LAYER_EOS`, as bytes.
pub open spec fn eos_layer_marker() -> Seq<u8> {
    seq![86u8, 75, 95, 76, 65, 89, 69, 82, 95, 69, 79, 83]
}

/// `VK_LAYER_LUNARG_api_dump`, as bytes.
pub open spec fn api_dump_layer_marker() -> Seq<u8> {
    seq![86u8, 75, 95, 76, 65, 89, 69, 82, 95, 76, 85, 78, 65, 82, 71, 95, 97, 112, 105, 95, 100, 117, 109, 112]
}

/// The major and minor numbers of a packed Vulkan version.
pub open spec fn version_major(version: u32) -> u32 {
    (version >> 22u32) & 0x7fu32
}

pub open spec fn version_minor(version: u32) -> u32 {
    (version >> 12u32) & 0x3ffu32
}

/// A layer is fit for the instance when it is not an EOS overlay layer, not the
/// API dump layer unless that is wanted, and written against Vulkan 1.3.
pub open spec fn layer_is_fit(layer: LayerProperties, keep_api_dump: bool) -> bool {
    &&& !contains_bytes(layer.name@, eos_layer_marker())
    &&& (keep_api_dump || !contains_bytes(layer.name@, api_dump_layer_marker()))
    &&& version_major(layer.spec_version) == 1
    &&& version_minor(layer.spec_version) == 3
}

/// The indices of the fit layers, in increasing order.
pub open spec fn fit_layer_indices(layers: Seq<LayerProperties>, keep_api_dump: bool) -> Seq<usize>
    decreases layers.len(),
{
    if layers.len() == 0 {
        seq![]
    } else {
        let earlier = fit_layer_indices(layers.drop_last(), keep_api_dump);
        if layer_is_fit(layers.last(), keep_api_dump) {
            earlier.push((layers.len() - 1) as usize)
        } else {
            earlier
        }
    }
}

/// Some layer's name is not UTF-8.
pub open spec fn some_layer_name_not_utf8(layers: Seq<LayerProperties>) -> bool {
    exists|i: int| 0 <= i < layers.len() && !vstd::utf8::valid_utf8(#[trigger] layers[i].name@)
}

/// The texts of a list of strings.
pub open spec fn texts(strings: Seq<String>) -> Seq<Seq<char>> {
    strings.map_values(|s: String| s@)
}

/// The instance extensions: those the window system needs, debug utils, and on
/// portability platforms the portability enumeration and the extended
/// physical-device queries.
pub open spec fn instance_extensions(required: Seq<Seq<char>>, portability: bool) -> Seq<Seq<char>> {
    required + seq!["VK_EXT_debug_utils"@] + if portability {
        seq!["VK_KHR_portability_enumeration"@, "VK_KHR_get_physical_device_properties2"@]
    } else {
        seq![]
    }
}

/// `plan` is the instance plan for the loader's `layers`, the window system's
/// `required` extensions and `options`: the application and engine are both
/// "tempura" version 0.1.0, the API is Vulkan 1.3, the fit layers are chosen
/// (the API dump layer only with the `debug` feature) and enabled with the
/// `develop` or `debug` feature, the extensions are the required ones followed
/// by debug utils (and the portability ones on portability platforms), and the
/// portability flag is set on those platforms.
pub open spec fn is_instance_plan(
    plan: InstancePlan,
    layers: Seq<LayerProperties>,
    required: Seq<Seq<char>>,
    options: InstanceOptions,
) -> bool {
    &&& plan.application_name@ == "tempura"@
    &&& plan.engine_name@ == "tempura"@
    &&& plan.application_version == ((0u32 << 29u32) | (0u32 << 22u32) | (1u32 << 12u32) | 0u32)
    &&& plan.engine_version == plan.application_version
    &&& plan.api_version == ((0u32 << 29u32) | (1u32 << 22u32) | (3u32 << 12u32) | 0u32)
    &&& plan.layers@ == fit_layer_indices(layers, options.debug)
    &&& plan.enable_layers == (options.develop || options.debug)
    &&& texts(plan.extension_names@) == instance_extensions(required, options.portability)
    &&& plan.flags == if options.portability {
        INSTANCE_CREATE_ENUMERATE_PORTABILITY
    } else {
        0
    }
}

/// Whether `needle` occurs in `hay` at position `at`.
fn occurs_at(hay: &Vec<u8>, needle: &Vec<u8>, at: usize) -> (r: bool)
    requires
        at + needle@.len() <= hay@.len(),
    ensures
        r == (hay@.subrange(at as int, at + needle@.len()) == needle@),
{
    let n = hay.len();
    let m = needle.len();
    for k in 0..m
        invariant
            n == hay@.len(),
            m == needle@.len(),
            at + m <= hay@.len(),
            forall|j: int| 0 <= j < k ==> hay@[at + j] == needle@[j],
    {
        if hay[at + k] != needle[k] {
            assert(hay@.subrange(at as int, at + m)[k as int] != needle@[k as int]);
            return false;
        }
    }
    assert(hay@.subrange(at as int, at + m) =~= needle@);
    true
}

/// Whether `needle` occurs anywhere in `hay`.
fn contains_subslice(hay: &Vec<u8>, needle: &Vec<u8>) -> (r: bool)
    ensures
        r == contains_bytes(hay@, needle@),
{
    let n = hay.len();
    let m = needle.len();
    if m > n {
        return false;
    }
    if m == 0 {
        assert(contains_bytes(hay@, needle@)) by {
            assert(hay@.subrange(0, 0int + needle@.len()) =~= needle@);
        }
        return true;
    }
    let last = n - m;
    let mut at: usize = 0;
    while at <= last
        invariant
            n == hay@.len(),
            m == needle@.len(),
            0 < m <= n,
            last == n - m,
            forall|i: int|
                0 <= i < at ==> #[trigger] hay@.subrange(i, i + m) != needle@,
        decreases last + 1 - at,
    {
        if occurs_at(hay, needle, at) {
            return true;
        }
        at = at + 1;
    }
    false
}

/// `VK_LAYER_EOS`, as bytes.
fn eos_marker() -> (r: Vec<u8>)
    ensures
        r@ == eos_layer_marker(),
{
    vec![86u8, 75, 95, 76, 65, 89, 69, 82, 95, 69, 79, 83]
}

/// `VK_LAYER_LUNARG_api_dump`, as bytes.
fn api_dump_marker() -> (r: Vec<u8>)
    ensures
        r@ == api_dump_layer_marker(),
{
    vec![86u8, 75, 95, 76, 65, 89, 69, 82, 95, 76, 85, 78, 65, 82, 71, 95, 97, 112, 105, 95, 100, 117, 109, 112]
}

/// Whether every layer's name is UTF-8.
fn layer_names_are_utf8(layers: &Vec<LayerProperties>) -> (r: bool)
    ensures
        r == !some_layer_name_not_utf8(layers@),
{
    let n = layers.len();
    for i in 0..n
        invariant
            n == layers@.len(),
            forall|j: int| 0 <= j < i ==> vstd::utf8::valid_utf8(#[trigger] layers@[j].name@),
    {
        if !is_utf8(layers[i].name.as_slice()) {
            return false;
        }
    }
    true
}

/// Picks the instance layers: every layer that is not an EOS overlay layer, not
/// the API dump layer (unless `keep_api_dump`), and written against Vulkan 1.3,
/// by its index. `None` when some layer's name is not UTF-8.
pub fn select_instance_layers(layers: &Vec<LayerProperties>, keep_api_dump: bool) -> (r: Option<
    Vec<usize>,
>)
    ensures
        r is None <==> some_layer_name_not_utf8(layers@),
        r matches Some(v) ==> v@ == fit_layer_indices(layers@, keep_api_dump),
        r matches Some(v) ==> ({
            let chosen = v@;
            &&& forall|k: int| 0 <= k < chosen.len() ==> #[trigger] chosen[k] < layers@.len()
            &&& forall|k: int, l: int| 0 <= k < l < chosen.len() ==> chosen[k] < chosen[l]
            &&& forall|k: int|
                0 <= k < chosen.len() ==> {
                    let layer = layers@[#[trigger] chosen[k] as int];
                    &&& !contains_bytes(layer.name@, eos_layer_marker())
                    &&& (keep_api_dump || !contains_bytes(layer.name@, api_dump_layer_marker()))
                    &&& (layer.spec_version >> 22u32) & 0x7fu32 == 1
                    &&& (layer.spec_version >> 12u32) & 0x3ffu32 == 3
                }
            &&& forall|i: int|
                0 <= i < layers@.len() && !contains_bytes((#[trigger] layers@[i]).name@, eos_layer_marker())
                    && (keep_api_dump || !contains_bytes(layers@[i].name@, api_dump_layer_marker()))
                    && (layers@[i].spec_version >> 22u32) & 0x7fu32 == 1 && (layers@[i].spec_version
                    >> 12u32) & 0x3ffu32 == 3 ==> chosen.contains(i as usize)
        }),
{
    let n: usize = layers.len();
    proof {
        lemma_chosen_layers(layers@, keep_api_dump);
    }
    if !layer_names_are_utf8(layers) {
        return None;
    }
    let eos = eos_marker();
    let api_dump = api_dump_marker();
    let mut kept: Vec<usize> = Vec::new();
    for i in 0..n
        invariant
            n == layers@.len(),
            eos@ == eos_layer_marker(),
            api_dump@ == api_dump_layer_marker(),
            kept@ == fit_layer_indices(layers@.take(i as int), keep_api_dump),
    {
        let layer = &layers[i];
        assert(layers@.take(i + 1).drop_last() =~= layers@.take(i as int));
        assert(layers@.take(i + 1).last() == layers@[i as int]);
        let fit = !contains_subslice(&layer.name, &eos)
            && (keep_api_dump || !contains_subslice(&layer.name, &api_dump))
            && api_version_major(layer.spec_version) == 1
            && api_version_minor(layer.spec_version) == 3;
        if fit {
            kept.push(i);
        }
    }
    assert(layers@.take(n as int) =~= layers@);
    Some(kept)
}

/// Plans the instance from the layers the loader reports: the application and
/// engine are both "tempura" version 0.1.0, the API is Vulkan 1.3, the fit
/// layers are chosen (the API dump layer only with the `debug` feature) and
/// enabled with the `develop` or `debug` feature, the extensions are
/// `required_extensions` followed by debug utils (and the portability ones on
/// portability platforms), and the portability flag is set there. `None` when
/// some layer's name is not UTF-8.
pub fn plan_instance_from_layers(
    layers: &Vec<LayerProperties>,
    required_extensions: Vec<String>,
    options: InstanceOptions,
) -> (r: Option<InstancePlan>)
    ensures
        r is None <==> some_layer_name_not_utf8(layers@),
        r matches Some(plan) ==> is_instance_plan(plan, layers@, texts(required_extensions@), options),
{
    let layers = match select_instance_layers(layers, options.debug) {
        Some(l) => l,
        None => return None,
    };
    let mut extension_names = required_extensions;
    let ghost required = texts(extension_names@);
    extension_names.push(debug_utils_extension_name());
    if options.portability {
        extension_names.push(portability_enumeration_extension_name());
        extension_names.push(get_physical_device_properties2_extension_name());
    }
    proof {
        let expected = instance_extensions(required, options.portability);
        assert(texts(extension_names@) =~= expected);
    }
    let application_version = make_api_version(0, 0, 1, 0);
    let api_version = make_api_version(0, 1, 3, 0);
    Some(
        InstancePlan {
            application_name: "tempura".to_owned(),
            engine_name: "tempura".to_owned(),
            application_version,
            engine_version: application_version,
            api_version,
            layers,
            enable_layers: options.develop || options.debug,
            extension_names,
            flags: if options.portability {
                INSTANCE_CREATE_ENUMERATE_PORTABILITY
            } else {
                0
            },
        },
    )
}

/// What planning makes of the loader's answers, taken in the order they are
/// used: the loader's error in listing the layers is handed back as it is; a
/// layer name that is not UTF-8 is refused; then the loader's error in listing
/// the extensions the window system needs is handed back as it is; else the
/// layers come back with the plan for them.
pub open spec fn listing_outcome(
    listing: Result<Vec<LayerProperties>, ash::vk::Result>,
    required: Result<Vec<String>, ash::vk::Result>,
    options: InstanceOptions,
    r: Result<(Vec<LayerProperties>, InstancePlan), InstanceError>,
) -> bool {
    match listing {
        Err(e) => r == Err::<(Vec<LayerProperties>, InstancePlan), InstanceError>(
            InstanceError::Vulkan(e),
        ),
        Ok(ls) => if some_layer_name_not_utf8(ls@) {
            r is Err && r->Err_0 is LayerNameNotUtf8
        } else {
            match required {
                Err(e) => r == Err::<(Vec<LayerProperties>, InstancePlan), InstanceError>(
                    InstanceError::Vulkan(e),
                ),
                Ok(names) => r matches Ok((layers, plan)) && layers@ == ls@ && is_instance_plan(
                    plan,
                    ls@,
                    texts(names@),
                    options,
                ),
            }
        },
    }
}

/// Plans the instance from the loader's answers (see `listing_outcome`): the
/// layers it lists and the extensions the window system needs.
pub fn plan_instance_from_listing(
    listing: Result<Vec<LayerProperties>, ash::vk::Result>,
    required_extensions: Result<Vec<String>, ash::vk::Result>,
    options: InstanceOptions,
) -> (r: Result<(Vec<LayerProperties>, InstancePlan), InstanceError>)
    ensures
        listing_outcome(listing, required_extensions, options, r),
{
    match listing {
        Err(e) => Err(InstanceError::Vulkan(e)),
        Ok(layers) => {
            if !layer_names_are_utf8(&layers) {
                return Err(InstanceError::LayerNameNotUtf8);
            }
            match required_extensions {
                Err(e) => Err(InstanceError::Vulkan(e)),
                Ok(names) => match plan_instance_from_layers(&layers, names, options) {
                    Some(plan) => Ok((layers, plan)),
                    None => Err(InstanceError::LayerNameNotUtf8),
                },
            }
        },
    }
}

/// Lists the layers installed on this machine and plans the instance from them
/// and from the window system's answer `required_extensions` (see
/// `plan_instance_from_listing`): whatever the loader answers, the result is
/// what planning makes of that answer; on success the layers come back with the
/// plan.
pub fn plan_instance(
    entry: &ash::Entry,
    required_extensions: Result<Vec<String>, ash::vk::Result>,
    options: InstanceOptions,
) -> (r: Result<(Vec<LayerProperties>, InstancePlan), InstanceError>)
    ensures
        exists|listing: Result<Vec<LayerProperties>, ash::vk::Result>|
            listing_outcome(listing, required_extensions, options, r),
        r matches Ok((layers, plan)) ==> required_extensions is Ok && is_instance_plan(
            plan,
            layers@,
            texts(required_extensions->Ok_0@),
            options,
        ),
{
    let listing = enumerate_instance_layers(entry);
    let ghost reported = listing;
    let ghost required = required_extensions;
    let r = plan_instance_from_listing(listing, required_extensions, options);
    assert(listing_outcome(reported, required, options, r));
    r
}

/// Packing a version and reading its major and minor numbers back gives the
/// numbers packed, for every version Vulkan can express.
pub proof fn lemma_version_round_trip(variant: u32, major: u32, minor: u32, patch: u32)
    requires
        variant < 8,
        major < 128,
        minor < 1024,
        patch < 4096,
    ensures
        version_major((variant << 29u32) | (major << 22u32) | (minor << 12u32) | patch) == major,
        version_minor((variant << 29u32) | (major << 22u32) | (minor << 12u32) | patch) == minor,
{
    assert((((variant << 29u32) | (major << 22u32) | (minor << 12u32) | patch) >> 22u32) & 0x7fu32
        == major) by (bit_vector)
        requires
            variant < 8,
            major < 128,
            minor < 1024,
            patch < 4096,
    ;
    assert((((variant << 29u32) | (major << 22u32) | (minor << 12u32) | patch) >> 12u32) & 0x3ffu32
        == minor) by (bit_vector)
        requires
            variant < 8,
            major < 128,
            minor < 1024,
            patch < 4096,
    ;
}

/// The instance asks for the Vulkan version that the layers are chosen for:
/// its API version reads back as 1.3.
pub proof fn lemma_instance_api_version_matches_layers(
    plan: InstancePlan,
    layers: Seq<LayerProperties>,
    required: Seq<Seq<char>>,
    options: InstanceOptions,
)
    requires
        is_instance_plan(plan, layers, required, options),
    ensures
        version_major(plan.api_version) == 1,
        version_minor(plan.api_version) == 3,
{
    lemma_version_round_trip(0, 1, 3, 0);
}

/// The chosen layers are listed once each, in the loader's order; each is no
/// EOS overlay layer, not the API dump layer unless that is kept, and written
/// against exactly Vulkan 1.3; and every such layer is chosen.
pub proof fn lemma_chosen_layers(layers: Seq<LayerProperties>, keep_api_dump: bool)
    requires
        layers.len() <= usize::MAX,
    ensures
        ({
            let chosen = fit_layer_indices(layers, keep_api_dump);
            &&& forall|k: int| 0 <= k < chosen.len() ==> #[trigger] chosen[k] < layers.len()
            &&& forall|k: int, l: int| 0 <= k < l < chosen.len() ==> chosen[k] < chosen[l]
            &&& forall|k: int|
                0 <= k < chosen.len() ==> {
                    let layer = layers[#[trigger] chosen[k] as int];
                    &&& !contains_bytes(layer.name@, eos_layer_marker())
                    &&& (keep_api_dump || !contains_bytes(layer.name@, api_dump_layer_marker()))
                    &&& (layer.spec_version >> 22u32) & 0x7fu32 == 1
                    &&& (layer.spec_version >> 12u32) & 0x3ffu32 == 3
                }
            &&& forall|i: int|
                0 <= i < layers.len() && !contains_bytes((#[trigger] layers[i]).name@, eos_layer_marker())
                    && (keep_api_dump || !contains_bytes(layers[i].name@, api_dump_layer_marker()))
                    && (layers[i].spec_version >> 22u32) & 0x7fu32 == 1 && (layers[i].spec_version
                    >> 12u32) & 0x3ffu32 == 3 ==> chosen.contains(i as usize)
        }),
{
    lemma_fit_layer_indices(layers, keep_api_dump);
    let chosen = fit_layer_indices(layers, keep_api_dump);
    assert forall|i: int|
        0 <= i < layers.len() && !contains_bytes((#[trigger] layers[i]).name@, eos_layer_marker())
            && (keep_api_dump || !contains_bytes(layers[i].name@, api_dump_layer_marker()))
            && (layers[i].spec_version >> 22u32) & 0x7fu32 == 1 && (layers[i].spec_version >> 12u32)
            & 0x3ffu32 == 3 implies chosen.contains(i as usize) by {
        assert(layer_is_fit(layers[i], keep_api_dump));
    }
    assert forall|k: int| 0 <= k < chosen.len() implies {
        let layer = layers[#[trigger] chosen[k] as int];
        &&& !contains_bytes(layer.name@, eos_layer_marker())
        &&& (keep_api_dump || !contains_bytes(layer.name@, api_dump_layer_marker()))
        &&& (layer.spec_version >> 22u32) & 0x7fu32 == 1
        &&& (layer.spec_version >> 12u32) & 0x3ffu32 == 3
    } by {
        assert(layer_is_fit(layers[chosen[k] as int], keep_api_dump));
    }
}

/// The chosen layers are listed once each, in the loader's order, are exactly
/// the fit ones, and none is an EOS overlay layer.
pub proof fn lemma_fit_layer_indices(layers: Seq<LayerProperties>, keep_api_dump: bool)
    requires
        layers.len() <= usize::MAX,
    ensures
        ({
            let chosen = fit_layer_indices(layers, keep_api_dump);
            &&& forall|k: int| 0 <= k < chosen.len() ==> #[trigger] chosen[k] < layers.len()
            &&& forall|k: int, l: int| 0 <= k < l < chosen.len() ==> chosen[k] < chosen[l]
            &&& forall|k: int|
                0 <= k < chosen.len() ==> layer_is_fit(layers[#[trigger] chosen[k] as int], keep_api_dump)
            &&& forall|i: int|
                0 <= i < layers.len() && layer_is_fit(#[trigger] layers[i], keep_api_dump)
                    ==> chosen.contains(i as usize)
            &&& forall|k: int|
                0 <= k < chosen.len() ==> !contains_bytes(
                    layers[#[trigger] chosen[k] as int].name@,
                    eos_layer_marker(),
                )
        }),
    decreases layers.len(),
{
    if layers.len() > 0 {
        let init = layers.drop_last();
        lemma_fit_layer_indices(init, keep_api_dump);
        let earlier = fit_layer_indices(init, keep_api_dump);
        let chosen = fit_layer_indices(layers, keep_api_dump);
        assert forall|i: int| 0 <= i < init.len() implies init[i] == layers[i] by {}
        assert forall|i: int|
            0 <= i < layers.len() && layer_is_fit(#[trigger] layers[i], keep_api_dump)
                implies chosen.contains(i as usize) by {
            if i < layers.len() - 1 {
                assert(init[i] == layers[i]);
                assert(earlier.contains(i as usize));
                let k = choose|k: int| 0 <= k < earlier.len() && earlier[k] == i as usize;
                assert(chosen[k] == earlier[k]);
            } else {
                assert(chosen[chosen.len() - 1] == (layers.len() - 1) as usize);
            }
        }
        assert forall|k: int|
            0 <= k < chosen.len() implies layer_is_fit(layers[#[trigger] chosen[k] as int], keep_api_dump) by {
            if k < earlier.len() {
                assert(chosen[k] == earlier[k]);
                assert(init[earlier[k] as int] == layers[earlier[k] as int]);
            } else {
                assert(chosen[k] == (layers.len() - 1) as usize);
                assert(layers[layers.len() - 1] == layers.last());
            }
        }
    }
}

impl BackendError {
    /// The message the error is reported with.
    pub fn message(&self) -> (r: String)
        ensures
            r@ == "No Vulkan-compatible devices found"@,
    {
        "No Vulkan-compatible devices found".to_owned()
    }
}

impl VkRenderBackend {
    /// The backend over the GPUs the instance enumerated, in their order; there
    /// must be at least one.
    pub fn new(physical_devices: Vec<VkPhysicalDevice>) -> (r: Result<Arc<Self>, BackendError>)
        ensures
            physical_devices@.len() == 0 <==> r is Err,
            r matches Ok(b) ==> {
                &&& b.physical_devices@.len() == physical_devices@.len()
                &&& forall|i: int|
                    0 <= i < physical_devices@.len() ==> *#[trigger] b.physical_devices@[i]
                        == physical_devices@[i]
            },
    {
        if physical_devices.len() == 0 {
            return Err(BackendError::NoCompatibleDevice);
        }
        let ghost given = physical_devices@;
        let mut rest = physical_devices;
        let mut shared: Vec<Arc<VkPhysicalDevice>> = Vec::new();
        while rest.len() > 0
            invariant
                shared@.len() + rest@.len() == given.len(),
                rest@ == given.skip(shared@.len() as int),
                forall|i: int| 0 <= i < shared@.len() ==> *#[trigger] shared@[i] == given[i],
            decreases rest@.len(),
        {
            let ghost k: int = shared@.len() as int;
            let device = rest.remove(0);
            assert(device == given[k]);
            shared.push(Arc::new(device));
            assert(rest@ =~= given.skip(k + 1));
        }
        Ok(Arc::new(VkRenderBackend { physical_devices: shared }))
    }
}

impl RenderBackend for VkRenderBackend {
    type PhysDev = VkPhysicalDevice;

    /// The GPUs the backend offers.
    fn physical_devices(&self) -> (r: &Vec<Arc<VkPhysicalDevice>>)
        ensures
            r@ == self.physical_devices@,
    {
        &self.physical_devices
    }
}

} // verus!
