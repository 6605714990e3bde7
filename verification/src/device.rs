//! Device selection and logical-device planning.  Every physical device the
//! instance enumerates is described by a plain capability report; the
//! selector keeps the first report that passes the suitability check, and
//! the logical-device plan de-duplicates the queue requests and names the
//! device-level layers and extensions to enable.

use vstd::prelude::*;
use vstd::string::StringExecFns;

use crate::error::BootstrapError;
use crate::instance::{spec_validation_layer_name, validation_layer_name};
use crate::text::name_list_has;
use crate::types::{PresentMode, SurfaceFormat};

verus! {

/// The broad kind of a physical device, as the driver reports it.
#[derive(Clone, Copy, Debug, PartialEq, Eq, Structural)]
pub enum DeviceType {
    Discrete,
    Integrated,
    Virtual,
    Cpu,
    Other,
}

/// What one queue family of a device supports.  Presentation support is
/// queried per family against the target surface, never assumed.
#[derive(Clone, Copy, Debug, PartialEq, Eq, Structural)]
pub struct QueueFamily {
    pub supports_graphics: bool,
    pub supports_present: bool,
}

/// The capability report of one enumerated physical device, with respect
/// to the target surface.
#[derive(Debug, Clone)]
pub struct DeviceInfo {
    pub device_type: DeviceType,
    pub has_geometry_shader: bool,
    pub queue_families: Vec<QueueFamily>,
    pub extensions: Vec<String>,
    pub formats: Vec<SurfaceFormat>,
    pub present_modes: Vec<PresentMode>,
}

/// The resolved pair of queue family indices a device is driven through.
/// The two may coincide or differ; both are always valid once this value
/// exists — it is never partially resolved.
#[derive(Clone, Copy, Debug, PartialEq, Eq, Structural)]
pub struct QueueFamilyIndices {
    pub graphics: u32,
    pub present: u32,
}

/// Whether some family of the report supports graphics work.
pub open spec fn spec_has_graphics(fams: Seq<QueueFamily>) -> bool {
    exists|i: int| 0 <= i < fams.len() && fams[i].supports_graphics
}

/// Whether some family of the report can present to the target surface.
pub open spec fn spec_has_present(fams: Seq<QueueFamily>) -> bool {
    exists|i: int| 0 <= i < fams.len() && fams[i].supports_present
}

/// Whether `qi` is the resolution this design gives a device: the first
/// family supporting graphics, and the first able to present.
pub open spec fn spec_indices_resolved(dev: DeviceInfo, qi: QueueFamilyIndices) -> bool {
    &&& (qi.graphics as int) < dev.queue_families@.len()
    &&& dev.queue_families@[qi.graphics as int].supports_graphics
    &&& forall|j: int| 0 <= j < qi.graphics as int ==> !dev.queue_families@[j].supports_graphics
    &&& (qi.present as int) < dev.queue_families@.len()
    &&& dev.queue_families@[qi.present as int].supports_present
    &&& forall|j: int| 0 <= j < qi.present as int ==> !dev.queue_families@[j].supports_present
}

/// Resolves the queue family indices of a device: the first family that
/// supports graphics and the first that can present.  Both must exist, or
/// nothing is resolved.
pub fn find_queue_families(dev: &DeviceInfo) -> (r: Option<QueueFamilyIndices>)
    requires
        dev.queue_families@.len() <= u32::MAX as nat,
    ensures
        r is Some <==> (spec_has_graphics(dev.queue_families@) && spec_has_present(
            dev.queue_families@,
        )),
        r matches Some(qi) ==> spec_indices_resolved(*dev, qi),
{
    let n = dev.queue_families.len();
    let mut graphics: Option<u32> = None;
    let mut i: usize = 0;
    while i < n
        invariant
            i <= n,
            n == dev.queue_families@.len(),
            n <= u32::MAX as nat,
            graphics is None ==> forall|j: int|
                0 <= j < i ==> !dev.queue_families@[j].supports_graphics,
            graphics matches Some(g) ==> {
                &&& (g as int) < n
                &&& dev.queue_families@[g as int].supports_graphics
                &&& forall|j: int| 0 <= j < g as int ==> !dev.queue_families@[j].supports_graphics
            },
        decreases n - i,
    {
        if graphics.is_none() && dev.queue_families[i].supports_graphics {
            graphics = Some(i as u32);
        }
        i += 1;
    }
    let mut present: Option<u32> = None;
    let mut k: usize = 0;
    while k < n
        invariant
            k <= n,
            n == dev.queue_families@.len(),
            n <= u32::MAX as nat,
            present is None ==> forall|j: int|
                0 <= j < k ==> !dev.queue_families@[j].supports_present,
            present matches Some(p) ==> {
                &&& (p as int) < n
                &&& dev.queue_families@[p as int].supports_present
                &&& forall|j: int| 0 <= j < p as int ==> !dev.queue_families@[j].supports_present
            },
        decreases n - k,
    {
        if present.is_none() && dev.queue_families[k].supports_present {
            present = Some(k as u32);
        }
        k += 1;
    }
    match (graphics, present) {
        (Some(g), Some(p)) => Some(QueueFamilyIndices { graphics: g, present: p }),
        _ => None,
    }
}

/// The suitability check a candidate device must pass whole: an accepted
/// device kind, the required feature, a graphics family, a presenting
/// family, every required extension, and at least one surface format and
/// one present mode.
pub open spec fn spec_suitable(dev: DeviceInfo, required: Seq<Seq<char>>) -> bool {
    &&& (dev.device_type == DeviceType::Discrete || dev.device_type == DeviceType::Integrated)
    &&& dev.has_geometry_shader
    &&& spec_has_graphics(dev.queue_families@)
    &&& spec_has_present(dev.queue_families@)
    &&& forall|e: int|
        0 <= e < required.len() ==> dev.extensions.deep_view().contains(#[trigger] required[e])
    &&& dev.formats@.len() > 0
    &&& dev.present_modes@.len() > 0
}

/// Runs the suitability check of one capability report.
pub fn is_suitable(dev: &DeviceInfo, required: &Vec<String>) -> (r: bool)
    ensures
        r == spec_suitable(*dev, required.deep_view()),
{
    let kind_ok = match dev.device_type {
        DeviceType::Discrete => true,
        DeviceType::Integrated => true,
        _ => false,
    };
    if !kind_ok {
        return false;
    }
    if !dev.has_geometry_shader {
        return false;
    }
    let n = dev.queue_families.len();
    let mut has_graphics = false;
    let mut has_present = false;
    let mut i: usize = 0;
    while i < n
        invariant
            i <= n,
            n == dev.queue_families@.len(),
            has_graphics == exists|j: int|
                0 <= j < i && dev.queue_families@[j].supports_graphics,
            has_present == exists|j: int| 0 <= j < i && dev.queue_families@[j].supports_present,
        decreases n - i,
    {
        if dev.queue_families[i].supports_graphics {
            has_graphics = true;
        }
        if dev.queue_families[i].supports_present {
            has_present = true;
        }
        i += 1;
    }
    if !has_graphics || !has_present {
        return false;
    }
    let mut e: usize = 0;
    while e < required.len()
        invariant
            e <= required@.len(),
            forall|j: int|
                0 <= j < e ==> dev.extensions.deep_view().contains(
                    #[trigger] required.deep_view()[j],
                ),
        decreases required@.len() - e,
    {
        if !name_list_has(&dev.extensions, &required[e]) {
            proof {
                assert(!dev.extensions.deep_view().contains(required.deep_view()[e as int]));
            }
            return false;
        }
        e += 1;
    }
    dev.formats.len() > 0 && dev.present_modes.len() > 0
}

/// Whether index `i` is the device a first-fit pass keeps: suitable, with
/// nothing suitable before it.
pub open spec fn spec_first_fit(devices: Seq<DeviceInfo>, required: Seq<Seq<char>>, i: int) -> bool {
    &&& 0 <= i < devices.len()
    &&& spec_suitable(devices[i], required)
    &&& forall|j: int| 0 <= j < i ==> !spec_suitable(#[trigger] devices[j], required)
}

/// Selection is deterministic: for a fixed enumeration order and a fixed
/// suitability outcome per report, only one index can be the first fit, so
/// the same list always yields the same device.
pub proof fn lemma_first_fit_deterministic(
    devices: Seq<DeviceInfo>,
    required: Seq<Seq<char>>,
    i1: int,
    i2: int,
)
    requires
        spec_first_fit(devices, required, i1),
        spec_first_fit(devices, required, i2),
    ensures
        i1 == i2,
{
    if i1 < i2 {
        assert(!spec_suitable(devices[i1], required));
    }
    if i2 < i1 {
        assert(!spec_suitable(devices[i2], required));
    }
}

/// Walks the enumerated devices in order and keeps the first that passes
/// the suitability check; reports a fatal error when none does.  A device
/// that fails is skipped, never reconsidered.
pub fn select_device(devices: &Vec<DeviceInfo>, required: &Vec<String>) -> (r: Result<
    usize,
    BootstrapError,
>)
    ensures
        r matches Ok(i) ==> spec_first_fit(devices@, required.deep_view(), i as int),
        r is Err <==> (forall|j: int|
            0 <= j < devices@.len() ==> !spec_suitable(#[trigger] devices@[j], required.deep_view())),
        r matches Err(e) ==> e is NoSuitableDevice,
{
    let mut i: usize = 0;
    while i < devices.len()
        invariant
            i <= devices@.len(),
            forall|j: int|
                0 <= j < i ==> !spec_suitable(#[trigger] devices@[j], required.deep_view()),
        decreases devices@.len() - i,
    {
        if is_suitable(&devices[i], required) {
            return Ok(i);
        }
        i += 1;
    }
    Err(BootstrapError::NoSuitableDevice)
}

/// The de-duplicated queue-request list: the graphics family, and the
/// presentation family only when it differs.
pub open spec fn spec_unique_families(qi: QueueFamilyIndices) -> Seq<u32> {
    if qi.graphics == qi.present {
        seq![qi.graphics]
    } else {
        seq![qi.graphics, qi.present]
    }
}

/// The de-duplicated list of queue families to request one queue from: one
/// entry when graphics and presentation share a family, two otherwise, and
/// never a repeated entry.
pub fn unique_queue_families(qi: &QueueFamilyIndices) -> (r: Vec<u32>)
    ensures
        r@ == spec_unique_families(*qi),
        forall|a: int, b: int| 0 <= a < b < r@.len() ==> r@[a] != r@[b],
{
    let mut out: Vec<u32> = Vec::new();
    out.push(qi.graphics);
    if qi.present != qi.graphics {
        out.push(qi.present);
        proof {
            assert(out@ =~= seq![qi.graphics, qi.present]);
        }
    } else {
        proof {
            assert(out@ =~= seq![qi.graphics]);
        }
    }
    out
}

/// The name of the device extension that provides a swapchain.
pub open spec fn spec_swapchain_extension_name() -> Seq<char> {
    "VK_KHR_swapchain"@
}

/// The device extensions a candidate must already offer to be suitable:
/// at minimum, swapchain support.
pub open spec fn spec_required_device_extensions() -> Seq<Seq<char>> {
    seq![spec_swapchain_extension_name()]
}

/// The device extensions a candidate must already offer to be suitable.
pub fn required_device_extensions() -> (r: Vec<String>)
    ensures
        r.deep_view() == spec_required_device_extensions(),
{
    let mut out: Vec<String> = Vec::new();
    out.push(swapchain_extension_name());
    proof {
        assert(out.deep_view() =~~= spec_required_device_extensions());
    }
    out
}

/// The name of the device extension that provides a swapchain.
pub fn swapchain_extension_name() -> (r: String)
    ensures
        r@ == spec_swapchain_extension_name(),
{
    String::from_str("VK_KHR_swapchain")
}

/// The name of the device extension a portability-translated device must
/// enable.
pub open spec fn spec_portability_subset_name() -> Seq<char> {
    "VK_KHR_portability_subset"@
}

/// The name of the device extension a portability-translated device must
/// enable.
pub fn portability_subset_name() -> (r: String)
    ensures
        r@ == spec_portability_subset_name(),
{
    String::from_str("VK_KHR_portability_subset")
}

/// The device extensions to enable: the swapchain extension always, and
/// the portability-subset extension when the target needs it.
pub open spec fn spec_device_extensions(portability: bool) -> Seq<Seq<char>> {
    seq![spec_swapchain_extension_name()] + (if portability {
        seq![spec_portability_subset_name()]
    } else {
        Seq::empty()
    })
}

/// Assembles the device-level extension list.
pub fn device_extensions(portability: bool) -> (r: Vec<String>)
    ensures
        r.deep_view() == spec_device_extensions(portability),
{
    let mut out: Vec<String> = Vec::new();
    out.push(swapchain_extension_name());
    if portability {
        out.push(portability_subset_name());
    }
    proof {
        assert(out.deep_view() =~~= spec_device_extensions(portability));
    }
    out
}

/// The device-level layers to enable: the validation layer when validation
/// is on, for compatibility with older drivers that still distinguish
/// device layers.
pub open spec fn spec_device_layers(validation: bool) -> Seq<Seq<char>> {
    if validation {
        seq![spec_validation_layer_name()]
    } else {
        Seq::empty()
    }
}

/// Assembles the device-level layer list.
pub fn device_layers(validation: bool) -> (r: Vec<String>)
    ensures
        r.deep_view() == spec_device_layers(validation),
{
    let mut out: Vec<String> = Vec::new();
    if validation {
        out.push(validation_layer_name());
    }
    proof {
        assert(out.deep_view() =~~= spec_device_layers(validation));
    }
    out
}

} // verus!
