//! Reducing an entry of the word list to the word that is translated, and to
//! the words that are spoken.

use crate::patterns::{capture_named, regex_named_capture};
use vstd::prelude::*;
use vstd::string::StringExecFns;

verus! {

/// An article and a noun at the start of an entry.
pub open spec fn noun_pattern() -> Seq<char> {
    "^(?<artikle>der|die|das) (?<word>\\w+)"@
}

/// A reflexive verb at the start of an entry.
pub open spec fn sich_pattern() -> Seq<char> {
    "^(\\(sich\\)) (?P<word>\\w+)"@
}

/// A word followed by a comma, as the forms of a verb are listed.
pub open spec fn verb_pattern() -> Seq<char> {
    "^(?<word>\\w+),"@
}

/// A word followed by a slash.
pub open spec fn slash_pattern() -> Seq<char> {
    "^(?<word>\\w+)/"@
}

/// A word followed by a remark in brackets.
pub open spec fn remark_pattern() -> Seq<char> {
    "^(?<word>\\w+) \\(.*\\)"@
}

/// A word followed by a hyphen.
pub open spec fn hyphen_pattern() -> Seq<char> {
    "^(?<word>\\w+)-"@
}

/// The name of the group that holds the article.
pub open spec fn article_group() -> Seq<char> {
    "artikle"@
}

/// The name of the group that holds the word.
pub open spec fn word_group() -> Seq<char> {
    "word"@
}

/// The article and the noun that an entry starts with, with one space
/// between them.
pub open spec fn noun_of(entry: Seq<char>) -> Option<Seq<char>> {
    match (
        regex_named_capture(noun_pattern(), entry, article_group()),
        regex_named_capture(noun_pattern(), entry, word_group()),
    ) {
        (Some(article), Some(word)) => Some(article + " "@ + word),
        _ => None,
    }
}

/// What the first of `patterns[from..]` that matches `entry` holds as the
/// word; `None` where none matches.
pub open spec fn first_word(entry: Seq<char>, patterns: Seq<Seq<char>>, from: int) -> Option<
    Seq<char>,
>
    decreases patterns.len() - from,
{
    if from < 0 || from >= patterns.len() {
        None
    } else {
        match regex_named_capture(patterns[from], entry, word_group()) {
            Some(word) => Some(word),
            None => first_word(entry, patterns, from + 1),
        }
    }
}

/// The word of an entry, read by the first of `patterns` that matches, after
/// the pattern for nouns; the entry itself where none matches.
pub open spec fn word_by(entry: Seq<char>, patterns: Seq<Seq<char>>) -> Seq<char> {
    match noun_of(entry) {
        Some(noun) => noun,
        None => match first_word(entry, patterns, 0) {
            Some(word) => word,
            None => entry,
        },
    }
}

/// The patterns that are tried for the word that is translated, in their
/// order.
pub open spec fn text_patterns() -> Seq<Seq<char>> {
    seq![sich_pattern(), verb_pattern(), slash_pattern(), remark_pattern()]
}

/// The patterns that are tried for the words that are spoken, in their order.
pub open spec fn speech_patterns() -> Seq<Seq<char>> {
    seq![hyphen_pattern(), slash_pattern(), remark_pattern()]
}

/// The article and the noun that came out of the two groups.
pub fn noun_from(article: &Option<String>, word: &Option<String>) -> (r: Option<String>)
    ensures
        r.deep_view() == match (article.deep_view(), word.deep_view()) {
            (Some(a), Some(w)) => Some(a + " "@ + w),
            _ => None,
        },
{
    match article {
        Some(a) => match word {
            Some(w) => Some(a.clone().concat(" ").concat(w.as_str())),
            None => None,
        },
        None => None,
    }
}

/// The word of an entry, read by the first of `patterns` that matches, after
/// the pattern for nouns.
pub fn extract_by(entry: &str, patterns: &Vec<String>) -> (r: String)
    ensures
        r@ == word_by(entry@, patterns.deep_view()),
{
    let article = capture_named("^(?<artikle>der|die|das) (?<word>\\w+)", entry, "artikle");
    let word = capture_named("^(?<artikle>der|die|das) (?<word>\\w+)", entry, "word");
    match noun_from(&article, &word) {
        Some(noun) => {
            return noun;
        },
        None => {},
    }
    let mut i: usize = 0;
    while i < patterns.len()
        invariant
            i <= patterns.len(),
            noun_of(entry@) is None,
            first_word(entry@, patterns.deep_view(), 0) == first_word(
                entry@,
                patterns.deep_view(),
                i as int,
            ),
        decreases patterns.len() - i,
    {
        match capture_named(patterns[i].as_str(), entry, "word") {
            Some(found) => {
                return found;
            },
            None => {},
        }
        i = i + 1;
    }
    String::from_str(entry)
}

/// The word of an entry that is handed to the translator: the article and
/// the noun, the verb without `(sich)` and without its forms, the word before
/// a slash or a remark; the entry itself where it has none of these shapes.
pub fn extract_word_from_text(word: &str) -> (r: String)
    ensures
        r@ == word_by(word@, text_patterns()),
{
    let mut patterns: Vec<String> = Vec::new();
    patterns.push(String::from_str("^(\\(sich\\)) (?P<word>\\w+)"));
    patterns.push(String::from_str("^(?<word>\\w+),"));
    patterns.push(String::from_str("^(?<word>\\w+)/"));
    patterns.push(String::from_str("^(?<word>\\w+) \\(.*\\)"));
    proof {
        assert(patterns.deep_view() == text_patterns());
    }
    extract_by(word, &patterns)
}

/// The words of an entry that are handed to the speech synthesis: the
/// article and the noun, the word before a hyphen, a slash or a remark; the
/// entry itself where it has none of these shapes.
pub fn extract_word_to_speach(word: &str) -> (r: String)
    ensures
        r@ == word_by(word@, speech_patterns()),
{
    let mut patterns: Vec<String> = Vec::new();
    patterns.push(String::from_str("^(?<word>\\w+)-"));
    patterns.push(String::from_str("^(?<word>\\w+)/"));
    patterns.push(String::from_str("^(?<word>\\w+) \\(.*\\)"));
    proof {
        assert(patterns.deep_view() == speech_patterns());
    }
    extract_by(word, &patterns)
}

} // verus!
