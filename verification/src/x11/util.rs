//! Conversions of X11 geometry.
use vstd::prelude::*;
use crate::util::rect::{irect, IRect};

verus! {

/// The rectangle of a window's geometry reply: its position and size.
pub fn geo_to_irect(x: i16, y: i16, width: u16, height: u16) -> (r: IRect)
    ensures
        r == irect(x as int, y as int, x + width, y + height),
{
    IRect::new(x as i32, y as i32, width as i32, height as i32)
}

} // verus!
