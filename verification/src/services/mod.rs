pub mod campaign_storage;
pub mod character_storage;
pub mod keyed;
