pub mod surface;
pub mod buffer;
pub mod compositor;
pub mod cursor;
pub mod output;
pub mod region;
