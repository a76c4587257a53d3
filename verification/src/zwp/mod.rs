pub mod dambuffeedback;
pub mod dmabuffactory;
pub mod dmabuffeedback;
pub mod dmabufparam;
pub mod idle;
use vstd::prelude::*;

verus! {

/// The plugin for DMA buffers.
pub struct DmaBufferPlugin;

} // verus!
