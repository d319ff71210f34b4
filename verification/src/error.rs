//! Startup error taxonomy.
//!
//! Every variant is fatal at startup: the host aborts with a diagnostic. The
//! library itself produces only `ShaderEntryPointMissing`; the host maps the
//! platform failures it meets while acquiring the adapter, the device or the
//! first surface configuration onto the remaining variants.

use vstd::prelude::*;

verus! {

/// A fatal failure while bringing the rendering host up.
#[derive(Clone, Copy, PartialEq, Eq, Structural, Debug)]
pub enum StartupError {
    /// No compatible physical adapter exists for the presentation surface.
    AdapterUnavailable,
    /// The platform driver rejected the logical device request.
    DeviceCreationFailed,
    /// The first surface configuration was rejected by the platform.
    SurfaceConfigurationFailed,
    /// The embedded shader source does not declare both required entry
    /// points, so no render pipeline can be produced from it.
    ShaderEntryPointMissing,
}

} // verus!
