pub mod rect;
