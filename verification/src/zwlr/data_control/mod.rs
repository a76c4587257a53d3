pub mod source;
use vstd::prelude::*;

verus! {

/// The plugin for the data control global.
pub struct DataControlPlugin;

} // verus!
