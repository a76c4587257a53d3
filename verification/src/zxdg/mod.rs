pub mod decoration;
pub mod outputmanager;
