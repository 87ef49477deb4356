pub mod card;
pub mod catalogs;
pub mod deck;
