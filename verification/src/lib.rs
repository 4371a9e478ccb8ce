pub mod card;
pub mod deck;
pub mod pile;
pub mod engine;
