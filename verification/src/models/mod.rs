pub mod campaign;
pub mod character;
