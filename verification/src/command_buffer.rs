use std::sync::Arc;
use vstd::prelude::*;

use crate::command_pool::CommandPool;
use crate::debug_utils::{applied_label, opt_label_view, set_object_name};
use crate::device::{Device, DeviceShared};

verus! {

/// What a caller asks of a new command buffer.
#[derive(Clone, Copy, Debug)]
pub struct CommandBufferDesc<'a> {
    pub label: Option<&'a str>,
}

/// One primary command buffer allocated from a pool. The buffer holds a
/// strong reference to its pool — not a mere back-pointer — so the pool's
/// native handle cannot be destroyed while any buffer from it is alive.
pub struct CommandBuffer {
    command_pool: Arc<CommandPool>,
    device: Device,
    label: Option<String>,
}

impl CommandBuffer {
    pub closed spec fn device_spec(self) -> DeviceShared {
        self.device@
    }

    pub closed spec fn pool_spec(self) -> CommandPool {
        *self.command_pool
    }

    pub closed spec fn label_spec(self) -> Option<Seq<char>> {
        match self.label {
            Some(l) => Some(l@),
            None => None,
        }
    }

    /// Allocates one primary buffer from `command_pool`, keeping a strong
    /// hold on the pool and attaching the label only when the device's
    /// instance negotiated diagnostics.
    pub fn new(device: Device, command_pool: Arc<CommandPool>, desc: &CommandBufferDesc) -> (r:
        CommandBuffer)
        ensures
            r.device_spec() == device@,
            r.pool_spec() == command_pool,
            r.label_spec() == applied_label(
                device@.instance@.extensions.ext_debug_utils_enabled(),
                opt_label_view(desc.label),
            ),
    {
        let label = set_object_name(&device, desc.label);
        CommandBuffer { command_pool, device, label }
    }

    pub fn device(&self) -> (r: &Device)
        ensures
            r@ == self.device_spec(),
    {
        &self.device
    }

    /// The shared hold on the owning pool.
    pub fn command_pool(&self) -> (r: &Arc<CommandPool>)
        ensures
            **r == self.pool_spec(),
    {
        &self.command_pool
    }

    pub fn label(&self) -> (r: Option<&String>)
        ensures
            match r {
                Some(l) => self.label_spec() == Some(l@),
                None => self.label_spec() is None,
            },
    {
        self.label.as_ref()
    }
}

} // verus!
