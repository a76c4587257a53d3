//! The idle inhibit global.
use vstd::prelude::*;

verus! {

/// The plugin for the idle inhibit global.
pub struct IdlePlugin;

} // verus!
