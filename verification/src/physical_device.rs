//! The physical-device model and its builder.
//!
//! A physical device is described by the plain values selection reads: an
//! opaque handle, the device type, the device name, and the selected
//! graphics queue-family index.  The builder tags each field with a
//! type-level marker so that a device can only be built once every field
//! has been set.

use core::marker::PhantomData;
use vstd::prelude::*;

use crate::queue_family::{
    has_graphics_family, is_queue_family_suitable, suitable_family, QueueFamilyData,
};
use crate::queue_family_index::{Graphics, QueueFamilyIndex};

verus! {

/// The kind of hardware a device reports itself as.
#[derive(Clone, Copy, Debug, PartialEq, Eq, Structural)]
pub enum DeviceType {
    Other,
    IntegratedGpu,
    DiscreteGpu,
    VirtualGpu,
    Cpu,
}

/// A selectable GPU, reduced to the values the library reads.  The handle is
/// opaque and carried through unread.
pub struct PhysicalDevice {
    raw: u64,
    device_type: DeviceType,
    device_name: String,
    graphics_queue_family: QueueFamilyIndex<Graphics>,
}

/// Type-level marker: this builder field has been set.
pub struct Yes;

/// Type-level marker: this builder field has not been set yet.
pub struct No;

impl PhysicalDevice {
    /// The opaque handle, for contracts.
    pub closed spec fn raw_spec(self) -> u64 {
        self.raw
    }

    /// The device type, for contracts.
    pub closed spec fn device_type_spec(self) -> DeviceType {
        self.device_type
    }

    /// The device name, for contracts.
    pub closed spec fn device_name_spec(self) -> Seq<char> {
        self.device_name@
    }

    /// The selected graphics queue-family index, for contracts.
    pub closed spec fn graphics_index_spec(self) -> u32 {
        self.graphics_queue_family.index()
    }

    /// A builder with no field set.
    pub fn builder() -> (r: PhysicalDeviceBuilder<No, No, No, No>)
        ensures
            r.raw_spec() == 0,
            r.device_type_spec() == DeviceType::Other,
            r.device_name_spec() == Seq::<char>::empty(),
            r.graphics_index_spec() == 0,
    {
        PhysicalDeviceBuilder {
            raw: 0,
            raw_set: PhantomData,
            device_type: DeviceType::Other,
            device_type_set: PhantomData,
            device_name: String::new(),
            device_name_set: PhantomData,
            graphics_queue_family: QueueFamilyIndex::new(0),
            graphics_queue_family_set: PhantomData,
        }
    }

    /// The driver's opaque handle for this device.
    pub fn raw(&self) -> (r: u64)
        ensures
            r == self.raw_spec(),
    {
        self.raw
    }

    /// The selected graphics queue-family index.
    pub fn graphics_queue_family(&self) -> (r: &QueueFamilyIndex<Graphics>)
        ensures
            r.index() == self.graphics_index_spec(),
    {
        &self.graphics_queue_family
    }

    /// The device name as reported by the driver.
    pub fn device_name(&self) -> (r: &String)
        ensures
            r@ == self.device_name_spec(),
    {
        &self.device_name
    }
}

/// Builds a [`PhysicalDevice`]; each marker parameter records whether the
/// corresponding field has been set.
pub struct PhysicalDeviceBuilder<RawSet, DeviceTypeSet, DeviceNameSet, GraphicsQueueFamilySet> {
    raw: u64,
    raw_set: PhantomData<RawSet>,
    device_type: DeviceType,
    device_type_set: PhantomData<DeviceTypeSet>,
    device_name: String,
    device_name_set: PhantomData<DeviceNameSet>,
    graphics_queue_family: QueueFamilyIndex<Graphics>,
    graphics_queue_family_set: PhantomData<GraphicsQueueFamilySet>,
}

impl<R, DT, DN, G> PhysicalDeviceBuilder<R, DT, DN, G> {
    /// The pending handle, for contracts.
    pub closed spec fn raw_spec(self) -> u64 {
        self.raw
    }

    /// The pending device type, for contracts.
    pub closed spec fn device_type_spec(self) -> DeviceType {
        self.device_type
    }

    /// The pending device name, for contracts.
    pub closed spec fn device_name_spec(self) -> Seq<char> {
        self.device_name@
    }

    /// The pending graphics queue-family index, for contracts.
    pub closed spec fn graphics_index_spec(self) -> u32 {
        self.graphics_queue_family.index()
    }

    /// Set the opaque device handle.
    pub fn raw(self, raw: u64) -> (r: PhysicalDeviceBuilder<Yes, DT, DN, G>)
        ensures
            r.raw_spec() == raw,
            r.device_type_spec() == self.device_type_spec(),
            r.device_name_spec() == self.device_name_spec(),
            r.graphics_index_spec() == self.graphics_index_spec(),
    {
        PhysicalDeviceBuilder {
            raw,
            raw_set: PhantomData,
            device_type: self.device_type,
            device_type_set: PhantomData,
            device_name: self.device_name,
            device_name_set: PhantomData,
            graphics_queue_family: self.graphics_queue_family,
            graphics_queue_family_set: PhantomData,
        }
    }

    /// Set the device type.
    pub fn device_type(self, device_type: DeviceType) -> (r: PhysicalDeviceBuilder<R, Yes, DN, G>)
        ensures
            r.raw_spec() == self.raw_spec(),
            r.device_type_spec() == device_type,
            r.device_name_spec() == self.device_name_spec(),
            r.graphics_index_spec() == self.graphics_index_spec(),
    {
        PhysicalDeviceBuilder {
            raw: self.raw,
            raw_set: PhantomData,
            device_type,
            device_type_set: PhantomData,
            device_name: self.device_name,
            device_name_set: PhantomData,
            graphics_queue_family: self.graphics_queue_family,
            graphics_queue_family_set: PhantomData,
        }
    }

    /// Set the device name.
    pub fn device_name(self, device_name: String) -> (r: PhysicalDeviceBuilder<R, DT, Yes, G>)
        ensures
            r.raw_spec() == self.raw_spec(),
            r.device_type_spec() == self.device_type_spec(),
            r.device_name_spec() == device_name@,
            r.graphics_index_spec() == self.graphics_index_spec(),
    {
        PhysicalDeviceBuilder {
            raw: self.raw,
            raw_set: PhantomData,
            device_type: self.device_type,
            device_type_set: PhantomData,
            device_name,
            device_name_set: PhantomData,
            graphics_queue_family: self.graphics_queue_family,
            graphics_queue_family_set: PhantomData,
        }
    }

    /// Set the selected graphics queue family.
    pub fn graphics_queue_family(
        self,
        graphics_queue_family: QueueFamilyIndex<Graphics>,
    ) -> (r: PhysicalDeviceBuilder<R, DT, DN, Yes>)
        ensures
            r.raw_spec() == self.raw_spec(),
            r.device_type_spec() == self.device_type_spec(),
            r.device_name_spec() == self.device_name_spec(),
            r.graphics_index_spec() == graphics_queue_family.index(),
    {
        PhysicalDeviceBuilder {
            raw: self.raw,
            raw_set: PhantomData,
            device_type: self.device_type,
            device_type_set: PhantomData,
            device_name: self.device_name,
            device_name_set: PhantomData,
            graphics_queue_family,
            graphics_queue_family_set: PhantomData,
        }
    }
}

impl PhysicalDeviceBuilder<Yes, Yes, Yes, Yes> {
    /// Assemble the device once every field has been set.
    pub fn build(self) -> (r: PhysicalDevice)
        ensures
            r.raw_spec() == self.raw_spec(),
            r.device_type_spec() == self.device_type_spec(),
            r.device_name_spec() == self.device_name_spec(),
            r.graphics_index_spec() == self.graphics_index_spec(),
    {
        PhysicalDevice {
            raw: self.raw,
            device_type: self.device_type,
            device_name: self.device_name,
            graphics_queue_family: self.graphics_queue_family,
        }
    }
}

/// Build the model of an enumerated device when it has a queue family
/// suitable for graphics work: the first suitable family index is selected.
/// A device without one is not usable by this library and yields `None`.
pub fn try_create_physical_device_with_graphics_queue(
    raw: u64,
    device_type: DeviceType,
    device_name: String,
    queue_families: &Vec<QueueFamilyData>,
) -> (r: Option<PhysicalDevice>)
    requires
        queue_families@.len() <= u32::MAX,
    ensures
        match r {
            Some(d) => {
                &&& d.raw_spec() == raw
                &&& d.device_type_spec() == device_type
                &&& d.device_name_spec() == device_name@
                &&& d.graphics_index_spec() < queue_families@.len()
                &&& suitable_family(queue_families@[d.graphics_index_spec() as int])
                &&& forall|j: int|
                    0 <= j < d.graphics_index_spec() ==> !suitable_family(queue_families@[j])
            },
            None => !has_graphics_family(queue_families@),
        },
{
    let n = queue_families.len();
    let mut i: usize = 0;
    while i < n
        invariant
            n == queue_families@.len() <= u32::MAX,
            0 <= i <= n,
            forall|j: int| 0 <= j < i ==> !suitable_family(queue_families@[j]),
        decreases n - i,
    {
        if is_queue_family_suitable(&queue_families[i]) {
            let device = PhysicalDevice::builder()
                .raw(raw)
                .device_type(device_type)
                .device_name(device_name)
                .graphics_queue_family(QueueFamilyIndex::new(i as u32))
                .build();
            return Some(device);
        }
        i = i + 1;
    }
    None
}

/// The reported-name prefix before the first NUL byte: driver name fields
/// are fixed-size arrays padded with NULs.
pub open spec fn name_prefix(bytes: Seq<u8>) -> Seq<u8> {
    if exists|i: int| 0 <= i < bytes.len() && bytes[i] == 0 {
        bytes.take(first_nul(bytes))
    } else {
        bytes
    }
}

/// The index of the first NUL byte.
pub open spec fn first_nul(bytes: Seq<u8>) -> int
    recommends
        exists|i: int| 0 <= i < bytes.len() && bytes[i] == 0,
{
    choose|i: int|
        0 <= i < bytes.len() && bytes[i] == 0 && forall|j: int| 0 <= j < i ==> bytes[j] != 0
}

/// Cut a fixed-size, NUL-padded name field down to the name itself: the
/// bytes before the first NUL, or all of them when no NUL occurs.
pub fn trim_at_nul(bytes: &Vec<u8>) -> (r: Vec<u8>)
    ensures
        r@ == name_prefix(bytes@),
{
    let n = bytes.len();
    let mut out: Vec<u8> = Vec::new();
    let mut i: usize = 0;
    while i < n
        invariant
            n == bytes@.len(),
            0 <= i <= n,
            out@ =~= bytes@.take(i as int),
            forall|j: int| 0 <= j < i ==> bytes@[j] != 0,
        decreases n - i,
    {
        if bytes[i] == 0 {
            proof {
                assert(bytes@[i as int] == 0);
                assert(first_nul(bytes@) == i) by {
                    let k = first_nul(bytes@);
                    assert(0 <= k < bytes@.len() && bytes@[k] == 0 && forall|j: int|
                        0 <= j < k ==> bytes@[j] != 0) by {
                        assert(0 <= i < bytes@.len() && bytes@[i as int] == 0 && forall|j: int|
                            0 <= j < i ==> bytes@[j] != 0);
                    }
                    if k < i {
                        assert(bytes@[k] != 0);
                    }
                    if i < k {
                        assert(bytes@[i as int] != 0);
                    }
                }
            }
            return out;
        }
        out.push(bytes[i]);
        i = i + 1;
    }
    assert(out@ =~= bytes@);
    out
}

} // verus!
