//! A playing-card deck: card identities, deck construction and deck
//! manipulation, with every operation stated over a sequence model and proved.

pub mod card;
pub mod deck;
pub mod lemmas;
pub mod random;

pub use card::Card;
pub use card::Rank;
pub use card::Suite;
pub use deck::Deck;
