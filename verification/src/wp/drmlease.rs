//! The DRM lease global.
use vstd::prelude::*;

verus! {

/// The plugin for the DRM lease global.
pub struct DrmLeasePlugin;

} // verus!
