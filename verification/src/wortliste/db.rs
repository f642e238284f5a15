//! The records of the word list, and the reading of the list out of the page
//! it is published on.

use crate::crawlers::markup::{document_matches, select_in_document};
use crate::text::{join, joined};
use vstd::prelude::*;
use vstd::string::StringExecFns;

verus! {

/// An entry of the word list.
#[derive(Debug)]
pub struct WordItem {
    pub id: i64,
    pub word: String,
    pub description: Option<String>,
}

/// The mathematical value of a [`WordItem`].
pub struct WordItemView {
    pub id: i64,
    pub word: Seq<char>,
    pub description: Option<Seq<char>>,
}

impl View for WordItem {
    type V = WordItemView;

    open spec fn view(&self) -> WordItemView {
        WordItemView { id: self.id, word: self.word@, description: self.description.deep_view() }
    }
}

impl DeepView for WordItem {
    type V = WordItemView;

    open spec fn deep_view(&self) -> WordItemView {
        self@
    }
}

/// The translation of an entry of the word list.
#[derive(Debug)]
pub struct Translation {
    pub id: i64,
    pub word_id: i64,
    pub translation: String,
    pub description: Option<String>,
    pub audio: Option<String>,
}

/// The mathematical value of a [`Translation`].
pub struct TranslationView {
    pub id: i64,
    pub word_id: i64,
    pub translation: Seq<char>,
    pub description: Option<Seq<char>>,
    pub audio: Option<Seq<char>>,
}

impl View for Translation {
    type V = TranslationView;

    open spec fn view(&self) -> TranslationView {
        TranslationView {
            id: self.id,
            word_id: self.word_id,
            translation: self.translation@,
            description: self.description.deep_view(),
            audio: self.audio.deep_view(),
        }
    }
}

impl DeepView for Translation {
    type V = TranslationView;

    open spec fn deep_view(&self) -> TranslationView {
        self@
    }
}

/// The texts of the cells `cells[from..n]` of a table row, cell after cell.
pub open spec fn cell_texts(cells: Seq<Seq<Seq<char>>>, from: int, n: int) -> Seq<Seq<char>>
    decreases n,
{
    if n <= from || n <= 0 {
        Seq::empty()
    } else {
        cell_texts(cells, from, n - 1) + cells[n - 1]
    }
}

/// The word of a table row: the first text of its first cell; empty where
/// the row has no cell or its first cell no text.
pub open spec fn row_word(cells: Seq<Seq<Seq<char>>>) -> Seq<char> {
    if cells.len() > 0 && cells[0].len() > 0 {
        cells[0][0]
    } else {
        Seq::empty()
    }
}

/// The entry that a table row stands for: its word, and the texts of its
/// other cells.
pub open spec fn row_entry(row: Seq<Seq<Seq<Seq<char>>>>) -> (Seq<char>, Seq<Seq<char>>) {
    let cells = if row.len() > 0 {
        row[0]
    } else {
        Seq::empty()
    };
    (row_word(cells), cell_texts(cells, 1, cells.len() as int))
}

/// The place of the first of `entries[from..]` with the word `word`; the
/// length of `entries` where none has it.
pub open spec fn entry_place(entries: Seq<(Seq<char>, Seq<Seq<char>>)>, word: Seq<char>, from: int) -> int
    decreases entries.len() - from,
{
    if from < 0 || from >= entries.len() {
        entries.len() as int
    } else if entries[from].0 == word {
        from
    } else {
        entry_place(entries, word, from + 1)
    }
}

/// `entries` with `entry` put in: in place of the entry that has its word, or
/// after the others where none has it.
pub open spec fn with_entry(
    entries: Seq<(Seq<char>, Seq<Seq<char>>)>,
    entry: (Seq<char>, Seq<Seq<char>>),
) -> Seq<(Seq<char>, Seq<Seq<char>>)> {
    let at = entry_place(entries, entry.0, 0);
    if at < entries.len() {
        entries.update(at, entry)
    } else {
        entries.push(entry)
    }
}

/// The word list that the first `n` table rows hold: one entry for each
/// word, in the order in which the words first occur, with what the last row
/// of that word says.
pub open spec fn rows_wortlist(rows: Seq<Seq<Seq<Seq<Seq<char>>>>>, n: int) -> Seq<
    (Seq<char>, Seq<Seq<char>>),
>
    decreases n,
{
    if n <= 0 {
        Seq::empty()
    } else {
        with_entry(rows_wortlist(rows, n - 1), row_entry(rows[n - 1]))
    }
}

/// The word list that a page holds in its table rows; empty where the page
/// cannot be searched.
pub open spec fn page_wortlist(page: Seq<char>) -> Seq<(Seq<char>, Seq<Seq<char>>)> {
    match document_matches(page, "tr"@, seq!["td"@]) {
        Some(rows) => rows_wortlist(rows, rows.len() as int),
        None => Seq::empty(),
    }
}

/// The description that is stored for an entry: its texts, one after the
/// other.
pub open spec fn stored_description(parts: Seq<Seq<char>>) -> Seq<char> {
    joined(parts, Seq::empty())
}

/// The entry that a table row stands for.
pub fn entry_from_row(row: &Vec<Vec<Vec<String>>>) -> (r: (String, Vec<String>))
    ensures
        r.deep_view() == row_entry(row.deep_view()),
{
    let mut texts: Vec<String> = Vec::new();
    proof {
        assert(texts.deep_view() == Seq::<Seq<char>>::empty());
    }
    if row.len() == 0 {
        return (String::new(), texts);
    }
    let cells = &row[0];
    let word = if cells.len() > 0 && cells[0].len() > 0 {
        cells[0][0].clone()
    } else {
        String::new()
    };
    let mut c: usize = 1;
    while c < cells.len()
        invariant
            1 <= c,
            c <= cells.len() || (cells.len() == 0 && c == 1),
            texts.deep_view() == cell_texts(cells.deep_view(), 1, c as int),
        decreases cells.len() - c,
    {
        let cell = &cells[c];
        let ghost base = texts.deep_view();
        let mut t: usize = 0;
        proof {
            assert(base + cell.deep_view().take(0) == base);
        }
        while t < cell.len()
            invariant
                t <= cell.len(),
                texts.deep_view() == base + cell.deep_view().take(t as int),
            decreases cell.len() - t,
        {
            let ghost before = texts.deep_view();
            texts.push(cell[t].clone());
            proof {
                assert(texts.deep_view() == before.push(cell[t as int]@));
                assert(base + cell.deep_view().take(t + 1) == before.push(cell[t as int]@));
            }
            t = t + 1;
        }
        proof {
            assert(cell.deep_view().take(cell.len() as int) == cell.deep_view());
            assert(cells.deep_view()[c as int] == cell.deep_view());
        }
        c = c + 1;
    }
    proof {
        let all = cells.deep_view();
        if cells.len() == 0 {
            assert(cell_texts(all, 1, 1) == cell_texts(all, 1, 0));
        }
        assert(row.deep_view()[0] == all);
    }
    (word, texts)
}

fn put_entry(entries: &mut Vec<(String, Vec<String>)>, entry: (String, Vec<String>))
    ensures
        final(entries).deep_view() == with_entry(old(entries).deep_view(), entry.deep_view()),
{
    let ghost before = entries.deep_view();
    let mut i: usize = 0;
    while i < entries.len()
        invariant
            i <= entries.len(),
            *entries == *old(entries),
            before == entries.deep_view(),
            entry_place(before, entry.0@, 0) == entry_place(before, entry.0@, i as int),
        decreases entries.len() - i,
    {
        proof {
            assert(before[i as int] == entries[i as int].deep_view());
        }
        if entries[i].0 == entry.0 {
            entries.set(i, entry);
            proof {
                assert(entries.deep_view() == before.update(i as int, entry.deep_view()));
            }
            return ;
        }
        i = i + 1;
    }
    entries.push(entry);
    proof {
        assert(entries.deep_view() == before.push(entry.deep_view()));
    }
}

/// The word list that table rows hold.
pub fn wortlist_from_rows(rows: &Vec<Vec<Vec<Vec<String>>>>) -> (r: Vec<(String, Vec<String>)>)
    ensures
        r.deep_view() == rows_wortlist(rows.deep_view(), rows.len() as int),
{
    let mut entries: Vec<(String, Vec<String>)> = Vec::new();
    let mut i: usize = 0;
    proof {
        assert(entries.deep_view() == Seq::<(Seq<char>, Seq<Seq<char>>)>::empty());
    }
    while i < rows.len()
        invariant
            i <= rows.len(),
            entries.deep_view() == rows_wortlist(rows.deep_view(), i as int),
        decreases rows.len() - i,
    {
        let entry = entry_from_row(&rows[i]);
        proof {
            assert(rows.deep_view()[i as int] == rows[i as int].deep_view());
        }
        put_entry(&mut entries, entry);
        i = i + 1;
    }
    entries
}

/// Reads the word list out of the page that holds it as a table.
pub fn read_wortlist(page: &str) -> (r: Vec<(String, Vec<String>)>)
    ensures
        r.deep_view() == page_wortlist(page@),
{
    let mut inner: Vec<String> = Vec::new();
    inner.push(String::from_str("td"));
    proof {
        assert(inner.deep_view() == seq!["td"@]);
    }
    match select_in_document(page, "tr", &inner) {
        Some(rows) => wortlist_from_rows(&rows),
        None => {
            let none: Vec<(String, Vec<String>)> = Vec::new();
            proof {
                assert(none.deep_view() == Seq::<(Seq<char>, Seq<Seq<char>>)>::empty());
            }
            none
        },
    }
}

/// The description that is stored for an entry.
pub fn description_of(parts: &Vec<String>) -> (r: String)
    ensures
        r@ == stored_description(parts.deep_view()),
{
    proof {
        reveal_strlit("");
        assert(""@ == Seq::<char>::empty());
    }
    join(parts, "")
}

} // verus!
