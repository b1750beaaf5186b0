use std::sync::Arc;
use vstd::prelude::*;

use crate::instance::Instance;
use crate::ownership::arc_clone;

verus! {

/// What the surface owns: its strong hold on the instance that created it.
/// The native presentable-surface handle itself lives in the shell; the
/// hold guarantees the instance outlives the surface.
pub struct SurfaceShared {
    pub instance: Instance,
}

/// The shared-ownership handle for a presentable target bound to a platform
/// window.
pub struct Surface {
    shared: Arc<SurfaceShared>,
}

impl View for Surface {
    type V = SurfaceShared;

    closed spec fn view(&self) -> SurfaceShared {
        *self.shared
    }
}

impl Clone for Surface {
    /// Another handle to the same surface.
    fn clone(&self) -> (r: Self)
        ensures
            r@ == self@,
    {
        Surface { shared: arc_clone(&self.shared) }
    }
}

impl Surface {
    /// Binds a surface to the instance; the platform window the native call
    /// needs is the shell's concern.
    pub fn new(instance: Instance) -> (r: Surface)
        ensures
            r@.instance == instance,
    {
        Surface { shared: Arc::new(SurfaceShared { instance }) }
    }

    pub fn instance(&self) -> (r: &Instance)
        ensures
            *r == self@.instance,
    {
        &self.shared.instance
    }
}

} // verus!
