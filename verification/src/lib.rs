pub mod characters;
pub mod commands;
pub mod models;
pub mod services;
pub mod utils;
