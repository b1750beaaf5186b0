use vstd::prelude::*;

verus! {

/// The failures this layer reports to its callers.
///
/// Driver-call failures belong to the unverified shell around the library;
/// inside the library the only recoverable failures are a device-selection
/// step that finds no usable queue family and a wait that runs out of time.
#[derive(Clone, Copy, Debug, PartialEq, Eq, Structural)]
pub enum Error {
    /// No queue family supports graphics, compute, transfer and presentation
    /// at once, so a logical device cannot be opened.
    NoSuitableQueueFamilies,
    /// A bounded wait ended before the awaited signal arrived.
    Timeout,
}

} // verus!
