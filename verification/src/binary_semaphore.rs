use vstd::prelude::*;

use crate::debug_utils::{applied_label, opt_label_view, set_object_name};
use crate::device::{Device, DeviceShared};

verus! {

/// What a caller asks of a new binary semaphore.
#[derive(Clone, Copy, Debug)]
pub struct BinarySemaphoreDesc<'a> {
    pub label: Option<&'a str>,
}

/// A binary GPU-side signal with no host-visible state beyond existence;
/// it holds its device so the device outlives it.
pub struct BinarySemaphore {
    device: Device,
    label: Option<String>,
}

impl BinarySemaphore {
    pub closed spec fn device_spec(self) -> DeviceShared {
        self.device@
    }

    pub closed spec fn label_spec(self) -> Option<Seq<char>> {
        match self.label {
            Some(l) => Some(l@),
            None => None,
        }
    }

    /// Creates the semaphore, attaching the label only when the device's
    /// instance negotiated diagnostics.
    pub fn new(device: Device, desc: &BinarySemaphoreDesc) -> (r: BinarySemaphore)
        ensures
            r.device_spec() == device@,
            r.label_spec() == applied_label(
                device@.instance@.extensions.ext_debug_utils_enabled(),
                opt_label_view(desc.label),
            ),
    {
        let label = set_object_name(&device, desc.label);
        BinarySemaphore { device, label }
    }

    pub fn device(&self) -> (r: &Device)
        ensures
            r@ == self.device_spec(),
    {
        &self.device
    }

    pub fn label(&self) -> (r: Option<&String>)
        ensures
            match r {
                Some(l) => self.label_spec() == Some(l@),
                None => self.label_spec() is None,
            },
    {
        self.label.as_ref()
    }
}

} // verus!
