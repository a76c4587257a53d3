//! Identifiers of the objects that the compositor keeps in its world.
use vstd::prelude::*;

verus! {

/// The identifier of an object in the compositor's world (its bits).
#[derive(Clone, Copy, PartialEq, Eq, Debug, Hash, Structural)]
pub struct Entity(pub u64);

} // verus!
