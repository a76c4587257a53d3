//! The cursor a pointer shows.
use vstd::prelude::*;

verus! {

/// The cursor of a pointer, by the serial of the enter event it was set for.
#[derive(Clone, Copy, PartialEq, Eq, Debug, Default, Structural)]
pub struct Cursor {
    pub serial: Option<u32>,
}

impl Cursor {
    pub fn new(serial: Option<u32>) -> (r: Cursor)
        ensures
            r.serial == serial,
    {
        Cursor { serial }
    }
}

} // verus!
