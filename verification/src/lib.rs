//! Small automation helpers: credit-offer ingestion from bank sites,
//! flashcard notes and decks, word-list clean-up and wallpaper file names.
//! Every function carries a contract. Verus proves the contracts of the
//! library's own code; the few functions that call into other crates are
//! marked `external_body`, and their doc comments say what is taken on trust.

pub mod anki;
pub mod crawlers;
pub mod patterns;
pub mod subscriptions;
pub mod text;
pub mod wallpaper;
pub mod wortliste;
