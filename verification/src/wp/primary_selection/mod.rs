pub mod source;
use vstd::prelude::*;

verus! {

/// The plugin for the primary selection global.
pub struct PrimarySelectionPlugin;

} // verus!
