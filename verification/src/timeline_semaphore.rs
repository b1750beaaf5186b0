use vstd::prelude::*;

use crate::debug_utils::{applied_label, opt_label_view, set_object_name};
use crate::device::{Device, DeviceShared};
use crate::error::Error;

verus! {

/// What a caller asks of a new timeline semaphore: the counter's starting
/// value and an optional label.
#[derive(Clone, Copy, Debug)]
pub struct TimelineSemaphoreDesc<'a> {
    pub initial_value: u64,
    pub label: Option<&'a str>,
}

/// A synchronization primitive around a monotonically non-decreasing 64-bit
/// counter: many ordered sequence points in one object. The value tracked
/// here is the host's view of the counter; GPU-side signals arrive through
/// the shell.
pub struct TimelineSemaphore {
    device: Device,
    value: u64,
    label: Option<String>,
}

impl TimelineSemaphore {
    pub closed spec fn device_spec(self) -> DeviceShared {
        self.device@
    }

    pub closed spec fn value_spec(self) -> u64 {
        self.value
    }

    pub closed spec fn label_spec(self) -> Option<Seq<char>> {
        match self.label {
            Some(l) => Some(l@),
            None => None,
        }
    }

    /// Creates the semaphore with the given initial counter value,
    /// attaching the label only when diagnostics was negotiated.
    pub fn new(device: Device, desc: &TimelineSemaphoreDesc) -> (r: TimelineSemaphore)
        ensures
            r.device_spec() == device@,
            r.value_spec() == desc.initial_value,
            r.label_spec() == applied_label(
                device@.instance@.extensions.ext_debug_utils_enabled(),
                opt_label_view(desc.label),
            ),
    {
        let label = set_object_name(&device, desc.label);
        TimelineSemaphore { device, value: desc.initial_value, label }
    }

    /// Reads the current counter value.
    pub fn value(&self) -> (r: u64)
        ensures
            r == self.value_spec(),
    {
        self.value
    }

    /// Signals the counter from the host. The counter never goes backwards:
    /// the caller keeps the progression non-decreasing, which the native API
    /// does not check for them.
    pub fn set_value(&mut self, value: u64)
        requires
            value >= old(self).value_spec(),
        ensures
            final(self).value_spec() == value,
            final(self).device_spec() == old(self).device_spec(),
            final(self).label_spec() == old(self).label_spec(),
    {
        self.value = value;
    }

    /// Blocks the calling thread until the counter reaches `value` or the
    /// timeout elapses. With no device-side signal arriving inside this
    /// layer, the wait succeeds exactly when the counter is already at or
    /// past the target, and otherwise ends in the timeout error.
    pub fn wait_for_value(&self, value: u64, timeout: u64) -> (r: Result<(), Error>)
        ensures
            r is Ok <==> self.value_spec() >= value,
            r matches Err(e) ==> e == Error::Timeout,
    {
        let _ = timeout;
        if self.value >= value {
            Ok(())
        } else {
            Err(Error::Timeout)
        }
    }

    pub fn device(&self) -> (r: &Device)
        ensures
            r@ == self.device_spec(),
    {
        &self.device
    }

    pub fn label(&self) -> (r: Option<&String>)
        ensures
            match r {
                Some(l) => self.label_spec() == Some(l@),
                None => self.label_spec() is None,
            },
    {
        self.label.as_ref()
    }
}

} // verus!
