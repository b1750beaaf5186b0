use std::sync::Arc;
use vstd::prelude::*;

use crate::adapter::DeviceType;
use crate::adapter::MemoryHeap;
use crate::error::Error;
use crate::instance::Instance;
use crate::names::{
    contains_name, contains_name_spec, khr_portability_subset_name,
    khr_portability_subset_name_string, khr_swapchain_name, khr_swapchain_name_string,
    lemma_names_view_push, names_view,
};
use crate::ownership::arc_clone;
use crate::queue::{
    compute_selection, direct_candidate, find_queue_family_indices, picks_best, queue_plan_spec,
    queue_create_family_indices, transfer_selection, QueueFamily,
};
use crate::surface::Surface;

verus! {

/// The property snapshot the negotiation reads of an adapter.
#[derive(Clone, Copy, Debug, PartialEq, Eq, Structural)]
pub struct DeviceProperties {
    pub device_type: DeviceType,
}

/// The memory-property snapshot of an adapter.
#[derive(Clone, Debug)]
pub struct DeviceMemoryProperties {
    pub heaps: Vec<MemoryHeap>,
}

/// The per-family queue capabilities of an adapter, already joined with the
/// per-family presentation answer for the target surface.
#[derive(Clone, Debug)]
pub struct DeviceQueueFamilyProperties {
    pub queue_family_properties: Vec<QueueFamily>,
}

/// A feature set: one opt-in bit per feature slot. A device carries two, the
/// driver-reported `supported` set and the caller-chosen `enabled` set that
/// is frozen once the device exists.
#[derive(Clone, Debug)]
pub struct DeviceFeatures {
    pub flags: Vec<bool>,
}

impl Default for DeviceFeatures {
    /// The empty set: nothing enabled.
    fn default() -> (r: Self)
        ensures
            r.flags@ == Seq::<bool>::empty(),
    {
        DeviceFeatures { flags: Vec::new() }
    }
}

/// The device-extension registry, scoped to one adapter. As with the
/// instance registries, enabling is monotonic and `try_push_*` re-checks the
/// supported list each call, so a repeated push appends a duplicate.
pub struct DeviceExtensions {
    supported: Vec<String>,
    enabled: Vec<String>,
    khr_portability_subset: bool,
    khr_swapchain: bool,
}

impl DeviceExtensions {
    pub closed spec fn supported_names(self) -> Seq<Seq<char>> {
        names_view(self.supported@)
    }

    pub closed spec fn enabled_names(self) -> Seq<Seq<char>> {
        names_view(self.enabled@)
    }

    pub closed spec fn khr_portability_subset_enabled(self) -> bool {
        self.khr_portability_subset
    }

    pub closed spec fn khr_swapchain_enabled(self) -> bool {
        self.khr_swapchain
    }

    /// An extension can be enabled only if the adapter reported it.
    pub open spec fn wf(self) -> bool {
        forall|i: int|
            0 <= i < self.enabled_names().len() ==> contains_name_spec(
                self.supported_names(),
                self.enabled_names()[i],
            )
    }

    /// Builds the registry over the adapter-reported extension list.
    pub fn new(supported: Vec<String>) -> (r: Self)
        ensures
            r.supported_names() == names_view(supported@),
            r.enabled_names() == Seq::<Seq<char>>::empty(),
            !r.khr_portability_subset_enabled(),
            !r.khr_swapchain_enabled(),
            r.wf(),
    {
        let r = Self {
            supported,
            enabled: Vec::new(),
            khr_portability_subset: false,
            khr_swapchain: false,
        };
        assert(r.enabled_names() =~= Seq::<Seq<char>>::empty());
        r
    }

    /// Enables `name` exactly when the adapter supports it.
    fn try_push(&mut self, name: String) -> (r: bool)
        ensures
            r == contains_name_spec(old(self).supported_names(), name@),
            final(self).supported_names() == old(self).supported_names(),
            final(self).khr_portability_subset_enabled() == old(
                self,
            ).khr_portability_subset_enabled(),
            final(self).khr_swapchain_enabled() == old(self).khr_swapchain_enabled(),
            r ==> final(self).enabled_names() == old(self).enabled_names().push(name@),
            !r ==> *final(self) == *old(self),
            old(self).wf() ==> final(self).wf(),
    {
        if contains_name(&self.supported, &name) {
            proof {
                lemma_names_view_push(self.enabled@, name);
            }
            self.enabled.push(name);
            true
        } else {
            false
        }
    }

    /// Opts into the portability-subset extension when the adapter has it.
    pub fn try_push_khr_portability_subset(&mut self) -> (r: bool)
        ensures
            r == contains_name_spec(old(self).supported_names(), khr_portability_subset_name()),
            final(self).supported_names() == old(self).supported_names(),
            r ==> final(self).enabled_names() == old(self).enabled_names().push(
                khr_portability_subset_name(),
            ),
            !r ==> *final(self) == *old(self),
            final(self).khr_portability_subset_enabled() == (old(
                self,
            ).khr_portability_subset_enabled() || r),
            final(self).khr_swapchain_enabled() == old(self).khr_swapchain_enabled(),
            old(self).wf() ==> final(self).wf(),
    {
        if self.try_push(khr_portability_subset_name_string()) {
            self.khr_portability_subset = true;
            true
        } else {
            false
        }
    }

    /// Demands the portability-subset extension; support was checked.
    pub fn push_khr_portability_subset(&mut self)
        requires
            contains_name_spec(old(self).supported_names(), khr_portability_subset_name()),
        ensures
            final(self).supported_names() == old(self).supported_names(),
            final(self).enabled_names() == old(self).enabled_names().push(
                khr_portability_subset_name(),
            ),
            final(self).khr_portability_subset_enabled(),
            final(self).khr_swapchain_enabled() == old(self).khr_swapchain_enabled(),
            old(self).wf() ==> final(self).wf(),
    {
        let _ = self.try_push_khr_portability_subset();
    }

    pub fn khr_portability_subset(&self) -> (r: bool)
        ensures
            r == self.khr_portability_subset_enabled(),
    {
        self.khr_portability_subset
    }

    /// Opts into the swapchain extension when the adapter has it.
    pub fn try_push_khr_swapchain(&mut self) -> (r: bool)
        ensures
            r == contains_name_spec(old(self).supported_names(), khr_swapchain_name()),
            final(self).supported_names() == old(self).supported_names(),
            r ==> final(self).enabled_names() == old(self).enabled_names().push(
                khr_swapchain_name(),
            ),
            !r ==> *final(self) == *old(self),
            final(self).khr_swapchain_enabled() == (old(self).khr_swapchain_enabled() || r),
            final(self).khr_portability_subset_enabled() == old(
                self,
            ).khr_portability_subset_enabled(),
            old(self).wf() ==> final(self).wf(),
    {
        if self.try_push(khr_swapchain_name_string()) {
            self.khr_swapchain = true;
            true
        } else {
            false
        }
    }

    /// Demands the swapchain extension; support was checked.
    pub fn push_khr_swapchain(&mut self)
        requires
            contains_name_spec(old(self).supported_names(), khr_swapchain_name()),
        ensures
            final(self).supported_names() == old(self).supported_names(),
            final(self).enabled_names() == old(self).enabled_names().push(khr_swapchain_name()),
            final(self).khr_swapchain_enabled(),
            final(self).khr_portability_subset_enabled() == old(
                self,
            ).khr_portability_subset_enabled(),
            old(self).wf() ==> final(self).wf(),
    {
        let _ = self.try_push_khr_swapchain();
    }

    /// The opted-into extension names, as handed to device creation.
    pub fn enabled(&self) -> (r: &Vec<String>)
        ensures
            names_view(r@) == self.enabled_names(),
    {
        &self.enabled
    }
}

/// Everything the logical device owns once negotiation is over: the
/// snapshots it was negotiated from, the negotiated state, the selected
/// queue families, and its strong holds on instance and surface.
pub struct DeviceShared {
    pub physical_device: usize,
    pub extensions: DeviceExtensions,
    pub properties: DeviceProperties,
    pub memory_properties: DeviceMemoryProperties,
    pub queue_family_properties: DeviceQueueFamilyProperties,
    pub supported_features: DeviceFeatures,
    pub enabled_features: DeviceFeatures,
    pub queue_family_indices: (u32, u32, u32),
    pub queue_create_family_indices: Vec<u32>,
    pub instance: Instance,
    pub surface: Surface,
}

/// The shared-ownership logical-device handle; every resource wrapper holds
/// one, so the device state outlives them all.
pub struct Device {
    shared: Arc<DeviceShared>,
}

impl View for Device {
    type V = DeviceShared;

    closed spec fn view(&self) -> DeviceShared {
        *self.shared
    }
}

impl Clone for Device {
    /// Another handle to the same logical device.
    fn clone(&self) -> (r: Self)
        ensures
            r@ == self@,
    {
        Device { shared: arc_clone(&self.shared) }
    }
}

impl Device {
    /// The stored queue-family indices are the ones the selection algorithm
    /// yields for the stored snapshot, and the queue-creation plan lists
    /// each distinct selected family once.
    pub open spec fn wf(self) -> bool {
        &&& picks_best(
            self@.queue_family_properties.queue_family_properties@,
            |f: QueueFamily| direct_candidate(f),
            self@.queue_family_indices.0 as int,
        )
        &&& compute_selection(
            self@.queue_family_properties.queue_family_properties@,
            self@.queue_family_indices.0 as int,
            self@.queue_family_indices.1 as int,
        )
        &&& transfer_selection(
            self@.queue_family_properties.queue_family_properties@,
            self@.queue_family_indices.0 as int,
            self@.queue_family_indices.2 as int,
        )
        &&& self@.queue_create_family_indices@ == queue_plan_spec(
            self@.queue_family_indices.0,
            self@.queue_family_indices.1,
            self@.queue_family_indices.2,
        )
    }

    /// Opens the logical device over an adapter the caller selected, with
    /// registries and feature sets the caller has already negotiated against
    /// the given snapshots. Success hinges on the queue-family selection: it
    /// succeeds exactly when some family supports graphics, compute,
    /// transfer and presentation at once, and fails with the explicit
    /// no-suitable-queue-families error otherwise.
    pub fn new(
        instance: Instance,
        surface: Surface,
        physical_device: usize,
        extensions: DeviceExtensions,
        properties: DeviceProperties,
        memory_properties: DeviceMemoryProperties,
        queue_family_properties: DeviceQueueFamilyProperties,
        supported_features: DeviceFeatures,
        enabled_features: DeviceFeatures,
    ) -> (r: Result<Device, Error>)
        requires
            queue_family_properties.queue_family_properties@.len() <= u32::MAX,
        ensures
            r is Ok <==> exists|i: int|
                0 <= i < queue_family_properties.queue_family_properties@.len()
                    && direct_candidate(queue_family_properties.queue_family_properties@[i]),
            r matches Err(e) ==> e == Error::NoSuitableQueueFamilies,
            r matches Ok(d) ==> {
                &&& d@.instance == instance
                &&& d@.surface == surface
                &&& d@.physical_device == physical_device
                &&& d@.extensions == extensions
                &&& d@.properties == properties
                &&& d@.memory_properties == memory_properties
                &&& d@.queue_family_properties == queue_family_properties
                &&& d@.supported_features == supported_features
                &&& d@.enabled_features == enabled_features
                &&& d.wf()
            },
    {
        let indices = match find_queue_family_indices(
            &queue_family_properties.queue_family_properties,
        ) {
            Some(indices) => indices,
            None => { return Err(Error::NoSuitableQueueFamilies); },
        };
        let (direct_index, compute_index, transfer_index) = indices;
        let queue_create = queue_create_family_indices(
            direct_index,
            compute_index,
            transfer_index,
        );
        Ok(
            Device {
                shared: Arc::new(
                    DeviceShared {
                        physical_device,
                        extensions,
                        properties,
                        memory_properties,
                        queue_family_properties,
                        supported_features,
                        enabled_features,
                        queue_family_indices: (direct_index, compute_index, transfer_index),
                        queue_create_family_indices: queue_create,
                        instance,
                        surface,
                    },
                ),
            },
        )
    }

    pub fn physical_device(&self) -> (r: usize)
        ensures
            r == self@.physical_device,
    {
        self.shared.physical_device
    }

    pub fn extensions(&self) -> (r: &DeviceExtensions)
        ensures
            *r == self@.extensions,
    {
        &self.shared.extensions
    }

    pub fn properties(&self) -> (r: &DeviceProperties)
        ensures
            *r == self@.properties,
    {
        &self.shared.properties
    }

    pub fn memory_properties(&self) -> (r: &DeviceMemoryProperties)
        ensures
            *r == self@.memory_properties,
    {
        &self.shared.memory_properties
    }

    pub fn queue_family_properties(&self) -> (r: &DeviceQueueFamilyProperties)
        ensures
            *r == self@.queue_family_properties,
    {
        &self.shared.queue_family_properties
    }

    pub fn supported_features(&self) -> (r: &DeviceFeatures)
        ensures
            *r == self@.supported_features,
    {
        &self.shared.supported_features
    }

    pub fn enabled_features(&self) -> (r: &DeviceFeatures)
        ensures
            *r == self@.enabled_features,
    {
        &self.shared.enabled_features
    }

    /// The direct, compute and transfer family indices the selection chose.
    pub fn queue_family_indices(&self) -> (r: (u32, u32, u32))
        ensures
            r == self@.queue_family_indices,
    {
        self.shared.queue_family_indices
    }

    /// The distinct families the device requests one queue from.
    pub fn queue_create_family_indices(&self) -> (r: &Vec<u32>)
        ensures
            *r == self@.queue_create_family_indices,
    {
        &self.shared.queue_create_family_indices
    }

    pub fn instance(&self) -> (r: &Instance)
        ensures
            *r == self@.instance,
    {
        &self.shared.instance
    }

    pub fn surface(&self) -> (r: &Surface)
        ensures
            *r == self@.surface,
    {
        &self.shared.surface
    }
}

} // verus!
