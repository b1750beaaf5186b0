use vstd::prelude::*;

use crate::debug_utils::{applied_label, opt_label_view, set_object_name};
use crate::device::{Device, DeviceShared};

verus! {

/// The creation flags a pool can be opened with.
#[derive(Clone, Copy, Debug, PartialEq, Eq, Structural)]
pub struct CommandPoolFlags {
    pub transient: bool,
    pub reset_command_buffer: bool,
}

/// What a caller asks of a new pool.
#[derive(Clone, Copy, Debug)]
pub struct CommandPoolDesc<'a> {
    pub flags: CommandPoolFlags,
    pub family_index: u32,
    pub label: Option<&'a str>,
}

/// A pool of command buffers scoped to one queue family: every buffer
/// allocated from it executes on that family's queues. Callers that hand
/// buffers out share the pool behind an `Arc`, so the pool outlives them.
pub struct CommandPool {
    device: Device,
    flags: CommandPoolFlags,
    family_index: u32,
    label: Option<String>,
}

impl CommandPool {
    pub closed spec fn device_spec(self) -> DeviceShared {
        self.device@
    }

    pub closed spec fn flags_spec(self) -> CommandPoolFlags {
        self.flags
    }

    pub closed spec fn family_index_spec(self) -> u32 {
        self.family_index
    }

    pub closed spec fn label_spec(self) -> Option<Seq<char>> {
        match self.label {
            Some(l) => Some(l@),
            None => None,
        }
    }

    /// Opens a pool on the given family with the given flags, attaching the
    /// label only when the device's instance negotiated diagnostics.
    pub fn new(device: Device, desc: &CommandPoolDesc) -> (r: CommandPool)
        ensures
            r.device_spec() == device@,
            r.flags_spec() == desc.flags,
            r.family_index_spec() == desc.family_index,
            r.label_spec() == applied_label(
                device@.instance@.extensions.ext_debug_utils_enabled(),
                opt_label_view(desc.label),
            ),
    {
        let label = set_object_name(&device, desc.label);
        CommandPool { device, flags: desc.flags, family_index: desc.family_index, label }
    }

    pub fn device(&self) -> (r: &Device)
        ensures
            r@ == self.device_spec(),
    {
        &self.device
    }

    pub fn flags(&self) -> (r: CommandPoolFlags)
        ensures
            r == self.flags_spec(),
    {
        self.flags
    }

    pub fn family_index(&self) -> (r: u32)
        ensures
            r == self.family_index_spec(),
    {
        self.family_index
    }

    pub fn label(&self) -> (r: Option<&String>)
        ensures
            match r {
                Some(l) => self.label_spec() == Some(l@),
                None => self.label_spec() is None,
            },
    {
        self.label.as_ref()
    }
}

} // verus!
