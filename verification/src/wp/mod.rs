pub mod data_device;
pub mod drmlease;
pub mod primary_selection;
use vstd::prelude::*;

verus! {

/// The plugin for clipboard, selection and text-input globals.
pub struct PrimarySelectionPlugin;

} // verus!
