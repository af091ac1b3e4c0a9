pub mod clock;
pub mod error;
pub mod file_system;
pub mod id_generator;
pub mod sorting;
pub mod text;
pub mod views;
