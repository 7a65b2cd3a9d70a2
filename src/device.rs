//! Suitability of physical devices and the choice of one among those the driver enumerates.
use vstd::prelude::*;
use crate::swapchain::SurfaceCapabilities;

verus! {

/// A queue family of a device, as probed.
#[derive(Clone, Copy, Debug, PartialEq, Eq, Structural)]
pub struct QueueFamilyInfo {
    pub id: u32,
    pub queue_count: u32,
    pub graphics: bool,
    /// Whether the family can present to the target surface on this windowing platform.
    pub presentation: bool,
}

/// A physical device, with what was probed of it.
#[derive(Clone, Debug)]
pub struct DeviceCandidate {
    pub name: String,
    /// In the order the driver enumerates them.
    pub queue_families: Vec<QueueFamilyInfo>,
    /// Names of the device extensions it supports.
    pub extensions: Vec<String>,
    /// The target surface's capabilities on this device; `None` when no surface is in scope.
    pub surface: Option<SurfaceCapabilities>,
}

/// The device to use and the queue family to submit graphics work and presentation to.
#[derive(Clone, Copy, Debug, PartialEq, Eq, Structural)]
pub struct SelectedDevice {
    /// Position of the device among the candidates.
    pub device: usize,
    /// Position of the queue family among the device's families.
    pub queue_family: usize,
}

/// Whether `name` is among `names`.
pub open spec fn has_name(names: Seq<String>, name: Seq<char>) -> bool {
    exists|j: int| 0 <= j < names.len() && (#[trigger] names[j])@ == name
}

/// Whether every name of `required` is among `supported`.
pub open spec fn supports_all(supported: Seq<String>, required: Seq<String>) -> bool {
    forall|i: int| 0 <= i < required.len() ==> has_name(supported, (#[trigger] required[i])@)
}

/// A family qualifies when it runs graphics work and, where a surface is in scope, presents to it.
pub open spec fn family_qualifies(family: QueueFamilyInfo, with_surface: bool) -> bool {
    family.graphics && (with_surface ==> family.presentation)
}

/// `r` is the position of the first qualifying family, or `None` when no family qualifies.
pub open spec fn is_first_family(
    families: Seq<QueueFamilyInfo>,
    with_surface: bool,
    r: Option<usize>,
) -> bool {
    match r {
        Some(i) => {
            &&& i < families.len()
            &&& family_qualifies(families[i as int], with_surface)
            &&& forall|j: int| 0 <= j < i ==> !family_qualifies(#[trigger] families[j], with_surface)
        },
        None => forall|j: int|
            0 <= j < families.len() ==> !family_qualifies(#[trigger] families[j], with_surface),
    }
}

/// Whether some family qualifies.
pub open spec fn has_qualifying_family(families: Seq<QueueFamilyInfo>, with_surface: bool) -> bool {
    exists|j: int| 0 <= j < families.len() && family_qualifies(#[trigger] families[j], with_surface)
}

/// The surface, when in scope, offers at least one format and one present mode.
pub open spec fn surface_adequate(surface: Option<SurfaceCapabilities>) -> bool {
    match surface {
        Some(caps) => caps.supported_formats@.len() > 0 && !caps.present_modes.is_empty_spec(),
        None => true,
    }
}

/// A device is suitable when a queue family qualifies, it supports every required extension,
/// and the surface in scope offers a format and a present mode.
pub open spec fn suitable(device: DeviceCandidate, required: Seq<String>) -> bool {
    &&& has_qualifying_family(device.queue_families@, device.surface is Some)
    &&& supports_all(device.extensions@, required)
    &&& surface_adequate(device.surface)
}

/// `r` is the first suitable candidate paired with its first qualifying family, or `None` when
/// no candidate is suitable.
pub open spec fn is_selection(
    devices: Seq<DeviceCandidate>,
    required: Seq<String>,
    r: Option<SelectedDevice>,
) -> bool {
    match r {
        Some(sel) => {
            &&& sel.device < devices.len()
            &&& suitable(devices[sel.device as int], required)
            &&& forall|j: int| 0 <= j < sel.device ==> !suitable(#[trigger] devices[j], required)
            &&& is_first_family(
                devices[sel.device as int].queue_families@,
                devices[sel.device as int].surface is Some,
                Some(sel.queue_family),
            )
        },
        None => forall|j: int| 0 <= j < devices.len() ==> !suitable(#[trigger] devices[j], required),
    }
}

/// Whether `name` is among `names`.
pub(crate) fn contains_name(names: &Vec<String>, name: &String) -> (r: bool)
    ensures
        r == has_name(names@, name@),
{
    let mut i: usize = 0;
    while i < names.len()
        invariant
            0 <= i <= names.len(),
            forall|j: int| 0 <= j < i ==> (#[trigger] names@[j])@ != name@,
        decreases names.len() - i,
    {
        if names[i] == *name {
            return true;
        }
        i = i + 1;
    }
    false
}

/// Whether the device supports every required extension; it may support more.
pub fn check_device_extension_support(supported: &Vec<String>, required: &Vec<String>) -> (r: bool)
    ensures
        r == supports_all(supported@, required@),
{
    let mut i: usize = 0;
    while i < required.len()
        invariant
            0 <= i <= required.len(),
            forall|k: int| 0 <= k < i ==> has_name(supported@, (#[trigger] required@[k])@),
        decreases required.len() - i,
    {
        if !contains_name(supported, &required[i]) {
            return false;
        }
        i = i + 1;
    }
    true
}

/// Position of the first queue family that runs graphics work and, where a surface is in scope,
/// presents to it.
pub fn find_queue_families(families: &Vec<QueueFamilyInfo>, with_surface: bool) -> (r: Option<
    usize,
>)
    ensures
        is_first_family(families@, with_surface, r),
        r is Some <==> has_qualifying_family(families@, with_surface),
{
    let mut i: usize = 0;
    while i < families.len()
        invariant
            0 <= i <= families.len(),
            forall|j: int| 0 <= j < i ==> !family_qualifies(#[trigger] families@[j], with_surface),
        decreases families.len() - i,
    {
        let f = families[i];
        if f.graphics && (!with_surface || f.presentation) {
            return Some(i);
        }
        i = i + 1;
    }
    None
}

/// Whether the device can be used: see [`suitable`].
pub fn is_device_suitable(device: &DeviceCandidate, required: &Vec<String>) -> (r: bool)
    ensures
        r == suitable(*device, required@),
{
    let family = find_queue_families(&device.queue_families, device.surface.is_some());
    if family.is_none() {
        return false;
    }
    if !check_device_extension_support(&device.extensions, required) {
        return false;
    }
    match &device.surface {
        Some(caps) => caps.supported_formats.len() > 0 && !caps.present_modes.is_empty(),
        None => true,
    }
}

/// The first suitable candidate, in enumeration order, with its first qualifying queue family.
pub fn pick_physical_device(devices: &Vec<DeviceCandidate>, required: &Vec<String>) -> (r: Option<
    SelectedDevice,
>)
    ensures
        is_selection(devices@, required@, r),
{
    let mut i: usize = 0;
    while i < devices.len()
        invariant
            0 <= i <= devices.len(),
            forall|j: int| 0 <= j < i ==> !suitable(#[trigger] devices@[j], required@),
        decreases devices.len() - i,
    {
        let device = &devices[i];
        if is_device_suitable(device, required) {
            let family = find_queue_families(&device.queue_families, device.surface.is_some());
            match family {
                Some(f) => {
                    return Some(SelectedDevice { device: i, queue_family: f });
                },
                None => {},
            }
        }
        i = i + 1;
    }
    None
}

/// Selection is a function of the candidates and the required extensions: any two results that
/// meet [`is_selection`] for the same inputs are equal, so repeated calls agree.
pub proof fn lemma_selection_unique(
    devices: Seq<DeviceCandidate>,
    required: Seq<String>,
    a: Option<SelectedDevice>,
    b: Option<SelectedDevice>,
)
    requires
        is_selection(devices, required, a),
        is_selection(devices, required, b),
    ensures
        a == b,
{
    match (a, b) {
        (Some(x), Some(y)) => {
            if x.device < y.device {
                assert(!suitable(devices[x.device as int], required));
            } else if y.device < x.device {
                assert(!suitable(devices[y.device as int], required));
            }
            let fams = devices[x.device as int].queue_families@;
            let ws = devices[x.device as int].surface is Some;
            if x.queue_family < y.queue_family {
                assert(!family_qualifies(fams[x.queue_family as int], ws));
            } else if y.queue_family < x.queue_family {
                assert(!family_qualifies(fams[y.queue_family as int], ws));
            }
        },
        (Some(x), None) => {
            assert(!suitable(devices[x.device as int], required));
        },
        (None, Some(y)) => {
            assert(!suitable(devices[y.device as int], required));
        },
        (None, None) => {},
    }
}

/// When exactly one candidate is suitable, that candidate is the one selected.
pub proof fn lemma_single_suitable_selected(
    devices: Seq<DeviceCandidate>,
    required: Seq<String>,
    k: int,
    r: Option<SelectedDevice>,
)
    requires
        0 <= k < devices.len(),
        suitable(devices[k], required),
        forall|j: int| 0 <= j < devices.len() && j != k ==> !suitable(#[trigger] devices[j], required),
        is_selection(devices, required, r),
    ensures
        r matches Some(sel) && sel.device == k,
{
    match r {
        Some(sel) => {
            if sel.device < k {
            } else if sel.device > k {
                assert(!suitable(devices[k], required));
            }
        },
        None => {
            assert(!suitable(devices[k], required));
        },
    }
}

/// A device that lacks any one required extension is not suitable, whatever else it offers.
pub proof fn lemma_missing_extension_rejected(device: DeviceCandidate, required: Seq<String>, k: int)
    requires
        0 <= k < required.len(),
        !has_name(device.extensions@, required[k]@),
    ensures
        !suitable(device, required),
{
}

/// With no surface in scope, a device with a graphics-capable queue family and every required
/// extension is suitable: no presentation check is made.
pub proof fn lemma_no_surface_graphics_accepted(device: DeviceCandidate, required: Seq<String>, k: int)
    requires
        device.surface is None,
        0 <= k < device.queue_families@.len(),
        device.queue_families@[k].graphics,
        supports_all(device.extensions@, required),
    ensures
        suitable(device, required),
{
    assert(family_qualifies(device.queue_families@[k], false));
}

} // verus!
