use vstd::prelude::*;

use crate::device::Device;

verus! {

/// The character sequences of an optional borrowed label.
pub open spec fn opt_label_view(label: Option<&str>) -> Option<Seq<char>> {
    match label {
        Some(l) => Some(l@),
        None => None,
    }
}

/// The character sequences of an optional attached name.
pub open spec fn opt_name_view(name: Option<String>) -> Option<Seq<char>> {
    match name {
        Some(n) => Some(n@),
        None => None,
    }
}

/// What ends up attached to an object: the requested label when the
/// diagnostics extension was negotiated, and nothing at all otherwise —
/// labeling is a guaranteed no-op, never an error, without the extension.
pub open spec fn applied_label(diagnostics: bool, label: Option<Seq<char>>) -> Option<Seq<char>> {
    if diagnostics {
        label
    } else {
        None
    }
}

/// Attaches a human-readable name to an object when the instance negotiated
/// the diagnostics extension; without it the object is left untouched.
pub fn set_object_name(device: &Device, label: Option<&str>) -> (r: Option<String>)
    ensures
        opt_name_view(r) == applied_label(
            device@.instance@.extensions.ext_debug_utils_enabled(),
            opt_label_view(label),
        ),
{
    match label {
        Some(l) => {
            if device.instance().extensions().ext_debug_utils() {
                Some(l.to_owned())
            } else {
                None
            }
        },
        None => None,
    }
}

} // verus!
