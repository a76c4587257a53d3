pub mod data_control;
