//! Flashcard notes, their models and decks, as the Anki collection format
//! knows them.

pub mod builders;
pub mod card;
pub mod db_entries;
pub mod deck;
pub mod error;
pub mod guid;
pub mod model;
pub mod note;
pub mod package;
pub mod rendering;

pub use builders::{Field, Template};
pub use card::Card;
pub use deck::Deck;
pub use error::Error;
pub use model::{Model, ModelType};
pub use note::Note;
pub use package::Package;
