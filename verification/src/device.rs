//! Physical-device selection and the logical-device creation request.
//!
//! A candidate device is eligible when it offers the presentable-surface
//! extension, a suitable graphics queue family, and a family that can
//! present to the surface under negotiation.  Selection takes the first
//! eligible device in enumeration order; no scoring of device types is
//! performed.  The creation request asks for one queue per distinct selected
//! family and enables the presentable-surface extension.

use vstd::prelude::*;

use crate::queue_family::{
    has_graphics_family, has_present_family, suitable_family, QueueFamilyData,
    find_queue_families, find_present_family,
};
use crate::RenderError;

verus! {

/// The selected graphics and presentation queue-family indices of a device.
/// The two may coincide.
#[derive(Clone, Copy, Debug, PartialEq, Eq, Structural)]
pub struct Queues {
    pub graphics: u32,
    pub presentation: u32,
}

/// `q` holds the first suitable graphics family and the first
/// presentation-capable family of a device reporting `families` and
/// `support`.
pub open spec fn queues_selected(
    families: Seq<QueueFamilyData>,
    support: Seq<bool>,
    q: Queues,
) -> bool {
    &&& 0 <= q.graphics < families.len()
    &&& suitable_family(families[q.graphics as int])
    &&& forall|j: int| 0 <= j < q.graphics ==> !suitable_family(families[j])
    &&& 0 <= q.presentation < support.len()
    &&& support[q.presentation as int]
    &&& forall|j: int| 0 <= j < q.presentation ==> !support[j]
}

/// Select the graphics and the presentation queue family of a device: each
/// is the first matching index in enumeration order, and the two searches
/// are independent.  `present_support[i]` reports whether family `i` can
/// present to the surface under negotiation.  Selection succeeds exactly
/// when both a suitable graphics family and a presentation-capable family
/// exist.
pub fn find_suitable_queues(
    families: &Vec<QueueFamilyData>,
    present_support: &Vec<bool>,
) -> (r: Option<Queues>)
    requires
        families@.len() <= u32::MAX,
        present_support@.len() == families@.len(),
    ensures
        match r {
            Some(q) => queues_selected(families@, present_support@, q),
            None => !has_graphics_family(families@) || !has_present_family(present_support@),
        },
{
    let graphics = match find_queue_families(families) {
        Some(i) => i,
        None => {
            return None;
        },
    };
    let presentation = match find_present_family(present_support) {
        Some(i) => i,
        None => {
            return None;
        },
    };
    Some(Queues { graphics, presentation })
}

/// The name of the device extension that provides presentable image chains
/// (`VK_KHR_swapchain`), as the ASCII byte string a driver reports.
pub open spec fn swapchain_extension_name_spec() -> Seq<u8> {
    seq![86u8, 75, 95, 75, 72, 82, 95, 115, 119, 97, 112, 99, 104, 97, 105, 110]
}

/// The name of the device extension that provides presentable image chains
/// (`VK_KHR_swapchain`), as ASCII bytes.
pub fn swapchain_extension_name() -> (r: Vec<u8>)
    ensures
        r@ == swapchain_extension_name_spec(),
{
    let mut v: Vec<u8> = Vec::new();
    v.push(86);
    v.push(75);
    v.push(95);
    v.push(75);
    v.push(72);
    v.push(82);
    v.push(95);
    v.push(115);
    v.push(119);
    v.push(97);
    v.push(112);
    v.push(99);
    v.push(104);
    v.push(97);
    v.push(105);
    v.push(110);
    assert(v@ =~= swapchain_extension_name_spec());
    v
}

fn bytes_equal(a: &Vec<u8>, b: &Vec<u8>) -> (r: bool)
    ensures
        r == (a@ == b@),
{
    if a.len() != b.len() {
        return false;
    }
    let n = a.len();
    let mut i: usize = 0;
    while i < n
        invariant
            n == a@.len() == b@.len(),
            0 <= i <= n,
            forall|j: int| 0 <= j < i ==> a@[j] == b@[j],
        decreases n - i,
    {
        if a[i] != b[i] {
            return false;
        }
        i = i + 1;
    }
    assert(a@ =~= b@);
    true
}

/// The reported extension-name list offers the presentable-surface
/// extension.
pub open spec fn offers_swapchain_extension(names: Seq<Vec<u8>>) -> bool {
    exists|i: int| 0 <= i < names.len() && names[i]@ == swapchain_extension_name_spec()
}

/// Whether the reported extension names contain the presentable-surface
/// extension.
pub fn supports_swapchain_extension(extension_names: &Vec<Vec<u8>>) -> (r: bool)
    ensures
        r == offers_swapchain_extension(extension_names@),
{
    let target = swapchain_extension_name();
    let n = extension_names.len();
    let mut i: usize = 0;
    while i < n
        invariant
            n == extension_names@.len(),
            0 <= i <= n,
            target@ == swapchain_extension_name_spec(),
            forall|j: int| 0 <= j < i ==> extension_names@[j]@ != swapchain_extension_name_spec(),
        decreases n - i,
    {
        if bytes_equal(&extension_names[i], &target) {
            return true;
        }
        i = i + 1;
    }
    false
}

/// Everything selection reads about one enumerated device.
#[derive(Debug)]
pub struct DeviceCandidate {
    /// The driver's opaque handle for the device, carried through unread.
    pub raw: u64,
    /// The device extensions the candidate offers, by name.
    pub extension_names: Vec<Vec<u8>>,
    /// One entry per queue family, in enumeration order.
    pub queue_families: Vec<QueueFamilyData>,
    /// Per family index, whether it can present to the surface.
    pub present_support: Vec<bool>,
}

impl DeviceCandidate {
    /// Presentation support is reported for exactly the enumerated families.
    pub open spec fn wf(self) -> bool {
        &&& self.present_support@.len() == self.queue_families@.len()
        &&& self.queue_families@.len() <= u32::MAX
    }

    /// The candidate offers the presentable-surface extension, a suitable
    /// graphics family, and a presentation-capable family.
    pub open spec fn eligible(self) -> bool {
        &&& offers_swapchain_extension(self.extension_names@)
        &&& has_graphics_family(self.queue_families@)
        &&& has_present_family(self.present_support@)
    }
}

/// The outcome of physical-device selection.
#[derive(Debug)]
pub struct SelectedDevice {
    /// Position of the selected device in the enumerated list.
    pub index: usize,
    /// The selected device's opaque handle.
    pub raw: u64,
    /// Its selected queue-family indices.
    pub queues: Queues,
}

/// Select the first enumerated device that offers the presentable-surface
/// extension together with a suitable graphics family and a
/// presentation-capable family, and resolve its queue-family indices.  When
/// no device is eligible the whole session cannot start.
pub fn select_physical_device(candidates: &Vec<DeviceCandidate>) -> (r: Result<
    SelectedDevice,
    RenderError,
>)
    requires
        forall|i: int| 0 <= i < candidates@.len() ==> (#[trigger] candidates@[i]).wf(),
    ensures
        match r {
            Ok(s) => {
                &&& s.index < candidates@.len()
                &&& candidates@[s.index as int].eligible()
                &&& forall|j: int| 0 <= j < s.index ==> !(#[trigger] candidates@[j]).eligible()
                &&& s.raw == candidates@[s.index as int].raw
                &&& queues_selected(
                    candidates@[s.index as int].queue_families@,
                    candidates@[s.index as int].present_support@,
                    s.queues,
                )
            },
            Err(e) => {
                &&& e == RenderError::NoSuitableDevice
                &&& forall|j: int|
                    0 <= j < candidates@.len() ==> !(#[trigger] candidates@[j]).eligible()
            },
        },
{
    let n = candidates.len();
    let mut i: usize = 0;
    while i < n
        invariant
            n == candidates@.len(),
            0 <= i <= n,
            forall|k: int| 0 <= k < n ==> (#[trigger] candidates@[k]).wf(),
            forall|j: int| 0 <= j < i ==> !(#[trigger] candidates@[j]).eligible(),
        decreases n - i,
    {
        let c = &candidates[i];
        if supports_swapchain_extension(&c.extension_names) {
            match find_suitable_queues(&c.queue_families, &c.present_support) {
                Some(queues) => {
                    return Ok(SelectedDevice { index: i, raw: c.raw, queues });
                },
                None => {},
            }
        }
        i = i + 1;
    }
    Err(RenderError::NoSuitableDevice)
}

/// What logical-device creation asks the driver for: one queue on each
/// distinct selected family, and the presentable-surface extension.
#[derive(Debug)]
pub struct DeviceRequest {
    /// The distinct queue-family indices to create one queue on, graphics
    /// first.
    pub queue_family_indices: Vec<u32>,
    /// Whether to enable the presentable-surface extension.
    pub enable_swapchain_extension: bool,
}

/// Build the logical-device creation request for the selected queues: one
/// queue on each distinct selected family index (graphics first; the
/// presentation index only when presentation was requested and it differs),
/// with the presentable-surface extension enabled exactly when presentation
/// was requested.
pub fn build_device_request(queues: &Queues, presentation_requested: bool) -> (r: DeviceRequest)
    ensures
        r.enable_swapchain_extension == presentation_requested,
        !presentation_requested ==> r.queue_family_indices@ == seq![queues.graphics],
        presentation_requested && queues.graphics == queues.presentation
            ==> r.queue_family_indices@ == seq![queues.graphics],
        presentation_requested && queues.graphics != queues.presentation
            ==> r.queue_family_indices@ == seq![queues.graphics, queues.presentation],
        forall|i: int, j: int|
            0 <= i < j < r.queue_family_indices@.len() ==> r.queue_family_indices@[i]
                != r.queue_family_indices@[j],
{
    let mut queue_family_indices: Vec<u32> = Vec::new();
    queue_family_indices.push(queues.graphics);
    if presentation_requested && queues.presentation != queues.graphics {
        queue_family_indices.push(queues.presentation);
        assert(queue_family_indices@ =~= seq![queues.graphics, queues.presentation]);
    } else {
        assert(queue_family_indices@ =~= seq![queues.graphics]);
    }
    DeviceRequest { queue_family_indices, enable_swapchain_extension: presentation_requested }
}

} // verus!
