use vstd::prelude::*;

use crate::debug_utils::{applied_label, opt_label_view, set_object_name};
use crate::device::{Device, DeviceShared};
use crate::error::Error;

verus! {

/// What a caller asks of a new fence: whether it starts signaled, and an
/// optional label.
#[derive(Clone, Copy, Debug)]
pub struct FenceDesc<'a> {
    pub signaled: bool,
    pub label: Option<&'a str>,
}

/// A host-waitable single-signal primitive. The state tracked here is the
/// host's view of the signal; only a reset clears it, and within this layer
/// nothing else changes it — GPU-side signaling arrives through the shell.
pub struct Fence {
    device: Device,
    signaled: bool,
    label: Option<String>,
}

impl Fence {
    pub closed spec fn device_spec(self) -> DeviceShared {
        self.device@
    }

    pub closed spec fn signaled_spec(self) -> bool {
        self.signaled
    }

    pub closed spec fn label_spec(self) -> Option<Seq<char>> {
        match self.label {
            Some(l) => Some(l@),
            None => None,
        }
    }

    /// Creates the fence pre-signaled or unsignaled as the descriptor asks,
    /// attaching the label only when diagnostics was negotiated.
    pub fn new(device: Device, desc: &FenceDesc) -> (r: Fence)
        ensures
            r.device_spec() == device@,
            r.signaled_spec() == desc.signaled,
            r.label_spec() == applied_label(
                device@.instance@.extensions.ext_debug_utils_enabled(),
                opt_label_view(desc.label),
            ),
    {
        let label = set_object_name(&device, desc.label);
        Fence { device, signaled: desc.signaled, label }
    }

    /// Clears the fence to unsignaled. The caller must not reset a fence
    /// that still has GPU work pending on it.
    pub fn reset(&mut self)
        ensures
            !final(self).signaled_spec(),
            final(self).device_spec() == old(self).device_spec(),
            final(self).label_spec() == old(self).label_spec(),
    {
        self.signaled = false;
    }

    /// Blocks the calling thread until the fence is signaled or the timeout
    /// elapses. With no device-side signal arriving inside this layer, the
    /// wait succeeds exactly when the fence is already signaled, and
    /// otherwise ends in the timeout error.
    pub fn wait_for(&self, timeout: u64) -> (r: Result<(), Error>)
        ensures
            r is Ok <==> self.signaled_spec(),
            r matches Err(e) ==> e == Error::Timeout,
    {
        let _ = timeout;
        if self.signaled {
            Ok(())
        } else {
            Err(Error::Timeout)
        }
    }

    pub fn device(&self) -> (r: &Device)
        ensures
            r@ == self.device_spec(),
    {
        &self.device
    }

    pub fn label(&self) -> (r: Option<&String>)
        ensures
            match r {
                Some(l) => self.label_spec() == Some(l@),
                None => self.label_spec() is None,
            },
    {
        self.label.as_ref()
    }
}

} // verus!
