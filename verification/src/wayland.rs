//! Objects of the Wayland server itself.
use vstd::prelude::*;

verus! {

/// The handle of a global that the Wayland display advertises. The library
/// only carries it.
#[verifier::external_type_specification]
#[verifier::external_body]
pub struct ExGlobalId(wayland_backend::server::GlobalId);

/// The data the server keeps for each client.
pub struct ClientState;

} // verus!
