//! A German word list on its way into a flashcard deck: the entries of the
//! list, their translations, and the notes made of both.

pub mod anki;
pub mod db;
pub mod deepl;
pub mod utils;

pub use db::{Translation, WordItem};
