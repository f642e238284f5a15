//! What the translator's answers are turned into.

use crate::crawlers::payload::{json_table, read_table};
use crate::text::{lowercase, lowercased};
use crate::wortliste::db::{Translation, TranslationView, WordItem, WordItemView};
use vstd::prelude::*;
use vstd::string::StringExecFns;

verus! {

/// The text of the first translation in an answer of the translator; `None`
/// where the answer is no JSON with a list `translations`, where the list is
/// empty, or where its first entry has no string `text`.
pub open spec fn answer_text(body: Seq<char>) -> Option<Seq<char>> {
    match json_table(body, "translations"@, seq!["text"@]) {
        Some(rows) => rows_text(rows),
        None => None,
    }
}

/// The string under the first member of the first row, if there is one.
pub open spec fn rows_text(rows: Seq<Seq<(Option<Seq<char>>, Option<Seq<char>>)>>) -> Option<
    Seq<char>,
> {
    if rows.len() > 0 && rows[0].len() > 0 {
        rows[0][0].0
    } else {
        None
    }
}

/// The translation of an entry, made of the translated word and the
/// translated description: the word in lower case, no sound yet, and no
/// identifier of its own yet.
pub open spec fn translation_of(word: WordItemView, translation: Seq<char>, description: Seq<char>) -> TranslationView {
    TranslationView {
        id: 0,
        word_id: word.id,
        translation: lowercased(translation),
        description: Some(description),
        audio: None,
    }
}

/// The string under the first member of the first row, if there is one.
pub fn text_from_rows(rows: &Vec<Vec<(Option<String>, Option<String>)>>) -> (r: Option<String>)
    ensures
        r.deep_view() == rows_text(rows.deep_view()),
{
    if rows.len() > 0 && rows[0].len() > 0 {
        match &rows[0][0].0 {
            Some(text) => Some(text.clone()),
            None => None,
        }
    } else {
        None
    }
}

/// Reads the first translation out of an answer of the translator.
pub fn parse_translation(body: &str) -> (r: Option<String>)
    ensures
        r.deep_view() == answer_text(body@),
{
    let mut members: Vec<String> = Vec::new();
    members.push(String::from_str("text"));
    proof {
        assert(members.deep_view() == seq!["text"@]);
    }
    match read_table(body, "translations", &members) {
        Some(rows) => text_from_rows(&rows),
        None => None,
    }
}

/// The translation of an entry, with the word already in lower case.
pub fn translation_record(word_item: &WordItem, lowered: String, description: String) -> (r:
    Translation)
    ensures
        r@ == (TranslationView {
            id: 0,
            word_id: word_item.id,
            translation: lowered@,
            description: Some(description@),
            audio: None,
        }),
{
    Translation {
        id: 0,
        word_id: word_item.id,
        translation: lowered,
        description: Some(description),
        audio: None,
    }
}

/// The translation of an entry, made of the translated word and the
/// translated description.
pub fn make_translation(word_item: &WordItem, translation: &str, description: &str) -> (r:
    Translation)
    ensures
        r@ == translation_of(word_item@, translation@, description@),
{
    translation_record(word_item, lowercase(translation), String::from_str(description))
}

} // verus!
