pub mod campaigns;
pub mod characters;
