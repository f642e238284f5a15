//! Notes: the facts of a deck, each with the cards that its model makes of
//! it.

use crate::anki::card::Card;
use crate::anki::db_entries::clone_texts;
use crate::anki::error::{Error, ErrorView};
use crate::anki::guid::{guid_for, is_generated_guid};
use crate::anki::model::{field_names, model_req, place, place_number, Model, ModelType, ModelView};
use crate::patterns::{find_captures, find_matches, regex_captures, regex_matches};
use crate::text::{contains, decimal_value, has_substring, join, joined, parse_decimal};
use std::collections::HashSet;
use vstd::prelude::*;
use vstd::std_specs::hash::spec_hash_keys_iter;
use vstd::std_specs::iter::IteratorSpec;
use vstd::string::StringExecFns;

verus! {

/// A note to be added to a deck.
#[derive(Debug)]
pub struct Note {
    model: Model,
    fields: Vec<String>,
    sort_field: bool,
    tags: Vec<String>,
    guid: String,
    cards: Vec<Card>,
}

/// The mathematical value of a [`Note`].
pub struct NoteView {
    pub model: ModelView,
    pub fields: Seq<Seq<char>>,
    pub sort_field: bool,
    pub tags: Seq<Seq<char>>,
    pub guid: Seq<char>,
    pub cards: Seq<Card>,
}

impl View for Note {
    type V = NoteView;

    closed spec fn view(&self) -> NoteView {
        NoteView {
            model: self.model@,
            fields: self.fields.deep_view(),
            sort_field: self.sort_field,
            tags: self.tags.deep_view(),
            guid: self.guid@,
            cards: self.cards@,
        }
    }
}

impl DeepView for Note {
    type V = NoteView;

    open spec fn deep_view(&self) -> NoteView {
        self@
    }
}

/// Whether a tag holds a space.
pub open spec fn holds_space(tag: Seq<char>) -> bool {
    has_substring(tag, " "@)
}

/// Whether one of the first `n` tags holds a space.
pub open spec fn some_tag_holds_space(tags: Seq<Seq<char>>, n: int) -> bool {
    exists|i: int| 0 <= i < n && i < tags.len() && holds_space(#[trigger] tags[i])
}

/// Whether one of the fields numbered `ords[from..]` is filled, as far as the
/// numbers have to be read: the answer is known at the first filled field.
/// `None` where a number that has to be read names no field of the note.
pub open spec fn any_filled(ords: Seq<usize>, fields: Seq<Seq<char>>, from: int) -> Option<bool>
    decreases ords.len() - from,
{
    if from < 0 || from >= ords.len() {
        Some(false)
    } else if ords[from] >= fields.len() {
        None
    } else if fields[ords[from] as int].len() > 0 {
        Some(true)
    } else {
        any_filled(ords, fields, from + 1)
    }
}

/// Whether all the fields numbered `ords[from..]` are filled, as far as the
/// numbers have to be read: the answer is known at the first empty field.
/// `None` where a number that has to be read names no field of the note.
pub open spec fn all_filled(ords: Seq<usize>, fields: Seq<Seq<char>>, from: int) -> Option<bool>
    decreases ords.len() - from,
{
    if from < 0 || from >= ords.len() {
        Some(true)
    } else if ords[from] >= fields.len() {
        None
    } else if fields[ords[from] as int].len() == 0 {
        Some(false)
    } else {
        all_filled(ords, fields, from + 1)
    }
}

/// Whether the fields of a note meet the need of a card. A need of the kind
/// `any` is met by one filled field; every other kind is read as `all`.
pub open spec fn need_met(kind: Seq<char>, ords: Seq<usize>, fields: Seq<Seq<char>>) -> Option<
    bool,
> {
    if kind == "any"@ {
        any_filled(ords, fields, 0)
    } else {
        all_filled(ords, fields, 0)
    }
}

/// The cards that the first `n` needs give a note with these fields: one card
/// for each need that is met, numbered by its template, in the order of the
/// needs. A need that names a field which the note lacks refuses the note.
pub open spec fn req_cards(
    req: Seq<(usize, Seq<char>, Seq<usize>)>,
    fields: Seq<Seq<char>>,
    model_len: usize,
    n: int,
) -> Result<Seq<Card>, ErrorView>
    decreases n,
{
    if n <= 0 {
        Ok(Seq::empty())
    } else {
        match req_cards(req, fields, model_len, n - 1) {
            Err(e) => Err(e),
            Ok(before) => match need_met(req[n - 1].1, req[n - 1].2, fields) {
                None => Err(
                    ErrorView::ModelFieldCountMismatch {
                        model_len,
                        card_len: fields.len() as usize,
                    },
                ),
                Some(met) => if met {
                    Ok(before.push(Card { ord: place(req[n - 1].0 as int), suspend: false }))
                } else {
                    Ok(before)
                },
            },
        }
    }
}

/// The cards of a note on a model with front and back.
pub open spec fn front_back(model: ModelView, fields: Seq<Seq<char>>) -> Result<
    Seq<Card>,
    ErrorView,
> {
    match model_req(model, model.templates.len() as int) {
        Err(e) => Err(e),
        Ok(req) => req_cards(req, fields, model.fields.len() as usize, req.len() as int),
    }
}

/// Of the first `n` groups of one match, those that took part, but for the
/// whole match.
pub open spec fn taken_groups(groups: Seq<Option<Seq<char>>>, n: int) -> Seq<Seq<char>>
    decreases n,
{
    if n <= 1 {
        Seq::empty()
    } else {
        let before = taken_groups(groups, n - 1);
        match groups[n - 1] {
            Some(text) => before.push(text),
            None => before,
        }
    }
}

/// The groups of the first `n` matches, match after match.
pub open spec fn found_groups(matches: Seq<Seq<Option<Seq<char>>>>, n: int) -> Seq<Seq<char>>
    decreases n,
{
    if n <= 0 {
        Seq::empty()
    } else {
        found_groups(matches, n - 1) + taken_groups(matches[n - 1], matches[n - 1].len() as int)
    }
}

/// All that the groups of a pattern caught in a text; nothing where the
/// pattern could not be used.
pub open spec fn all_groups(found: Option<Seq<Seq<Option<Seq<char>>>>>) -> Seq<Seq<char>> {
    match found {
        Some(matches) => found_groups(matches, matches.len() as int),
        None => Seq::empty(),
    }
}

/// The pattern of a cloze reference between double braces.
pub open spec fn brace_pattern() -> Seq<char> {
    "{{[^}]*?cloze:(?:[^}]?:)*(.+?)}}"@
}

/// The pattern of a cloze reference between angle brackets.
pub open spec fn angle_pattern() -> Seq<char> {
    "<%cloze:(.+?)%>"@
}

/// The pattern of a numbered deletion in a field.
pub open spec fn deletion_pattern() -> Seq<char> {
    "(?s){{c(\\d+)::.+?}}"@
}

/// The pattern of what looks like an HTML tag and is none.
pub open spec fn invalid_tag_pattern() -> Seq<char> {
    "<(?!/?[a-z0-9]+(?: .*|/?)>)(?:.|\\n)*?>"@
}

/// The names of the fields that a question format refers to as cloze fields.
pub open spec fn cloze_names(qfmt: Seq<char>) -> Seq<Seq<char>> {
    all_groups(regex_captures(brace_pattern(), qfmt)) + all_groups(
        regex_captures(angle_pattern(), qfmt),
    )
}

/// The place of the first of the names `names[from..]` that equals `name`;
/// the length of `names` where none does.
pub open spec fn first_named(names: Seq<Seq<char>>, name: Seq<char>, from: int) -> int
    decreases names.len() - from,
{
    if from < 0 || from >= names.len() {
        names.len() as int
    } else if names[from] == name {
        from
    } else {
        first_named(names, name, from + 1)
    }
}

/// The content of the field called `name`: that of the first field of the
/// model with this name; empty where the model has no such field or the note
/// has no content for it.
pub open spec fn named_content(names: Seq<Seq<char>>, fields: Seq<Seq<char>>, name: Seq<char>) -> Seq<
    char,
> {
    let at = first_named(names, name, 0);
    if at < names.len() && at < fields.len() {
        fields[at]
    } else {
        Seq::empty()
    }
}

/// The card that a deletion number stands for: the number less one. `None`
/// where the text is no number in decimal digits, where the number is zero,
/// or where it is above what a card number can hold.
pub open spec fn deletion_ord(number: Seq<char>) -> Option<i64> {
    match decimal_value(number) {
        Some(n) => if 1 <= n <= i64::MAX {
            Some((n - 1) as i64)
        } else {
            None
        },
        None => None,
    }
}

/// The cards that the first `n` of the numbers stand for.
pub open spec fn deletion_ords(numbers: Seq<Seq<char>>, n: int) -> Seq<i64>
    decreases n,
{
    if n <= 0 {
        Seq::empty()
    } else {
        let before = deletion_ords(numbers, n - 1);
        match deletion_ord(numbers[n - 1]) {
            Some(ord) => before.push(ord),
            None => before,
        }
    }
}

/// The cards that the deletions in `content` stand for, in their order.
pub open spec fn content_ords(content: Seq<char>) -> Seq<i64> {
    let numbers = all_groups(regex_captures(deletion_pattern(), content));
    deletion_ords(numbers, numbers.len() as int)
}

/// The cards that the deletions in the fields called by the first `n` of
/// `called` stand for, field after field.
pub open spec fn called_ords(
    names: Seq<Seq<char>>,
    fields: Seq<Seq<char>>,
    called: Seq<Seq<char>>,
    n: int,
) -> Seq<i64>
    decreases n,
{
    if n <= 0 {
        Seq::empty()
    } else {
        called_ords(names, fields, called, n - 1) + content_ords(
            named_content(names, fields, called[n - 1]),
        )
    }
}

/// The numbers of the cards, in their order.
pub open spec fn card_numbers(cards: Seq<Card>) -> Seq<i64> {
    Seq::new(cards.len(), |i: int| cards[i].ord)
}

/// The numbers of the cards of a cloze note: those that the deletions in its
/// cloze fields stand for; the first card where there is none.
pub open spec fn cloze_ords(model: ModelView, fields: Seq<Seq<char>>) -> Set<i64> {
    let qfmt = if model.templates.len() > 0 {
        model.templates[0].qfmt
    } else {
        Seq::empty()
    };
    let called = cloze_names(qfmt);
    let all = called_ords(field_names(model.fields), fields, called, called.len() as int);
    if all.len() == 0 {
        set![0i64]
    } else {
        all.to_set()
    }
}

/// Whether `cards` are the cards of a cloze note: one card for each of its
/// numbers, none twice, none suspended. Their order is that in which the
/// hash set of the numbers is walked, of which nothing is known.
pub open spec fn are_cloze_cards(model: ModelView, fields: Seq<Seq<char>>, cards: Seq<Card>) -> bool {
    &&& card_numbers(cards).no_duplicates()
    &&& card_numbers(cards).to_set() == cloze_ords(model, fields)
    &&& forall|i: int| 0 <= i < cards.len() ==> !(#[trigger] cards[i]).suspend
}

/// A cloze note has at least one card.
pub proof fn lemma_cloze_note_has_a_card(
    model: ModelView,
    fields: Seq<Seq<char>>,
    cards: Seq<Card>,
)
    requires
        are_cloze_cards(model, fields, cards),
    ensures
        cards.len() >= 1,
{
    let qfmt = if model.templates.len() > 0 {
        model.templates[0].qfmt
    } else {
        Seq::empty()
    };
    let called = cloze_names(qfmt);
    let all = called_ords(field_names(model.fields), fields, called, called.len() as int);
    let some = if all.len() == 0 {
        0i64
    } else {
        all[0]
    };
    if all.len() > 0 {
        assert(all.contains(all[0]));
    }
    assert(cloze_ords(model, fields).contains(some));
    assert(card_numbers(cards).contains(some));
}

/// Whether `cards` are the cards of a note with these fields.
pub open spec fn are_cards_for(model: ModelView, fields: Seq<Seq<char>>, cards: Seq<Card>) -> bool {
    match model.model_type {
        ModelType::FrontBack => front_back(model, fields) == Ok::<Seq<Card>, ErrorView>(cards),
        ModelType::Cloze => are_cloze_cards(model, fields, cards),
    }
}

/// Why a note with these fields has no cards, if it has none.
pub open spec fn cards_refusal(model: ModelView, fields: Seq<Seq<char>>) -> Option<ErrorView> {
    match model.model_type {
        ModelType::FrontBack => match front_back(model, fields) {
            Err(e) => Some(e),
            Ok(_) => None,
        },
        ModelType::Cloze => None,
    }
}

/// The note that the given parts make, once its identifier is `guid` and its
/// cards are `cards`; or the reason for which the parts make no note.
pub open spec fn note_of(
    model: ModelView,
    fields: Seq<Seq<char>>,
    sort_field: Option<bool>,
    tags: Seq<Seq<char>>,
    guid: Seq<char>,
    cards: Seq<Card>,
) -> Result<NoteView, ErrorView> {
    if some_tag_holds_space(tags, tags.len() as int) {
        Err(ErrorView::TagContainsWhitespace)
    } else {
        match cards_refusal(model, fields) {
            Some(e) => Err(e),
            None => Ok(
                NoteView {
                    model,
                    fields,
                    sort_field: match sort_field {
                        Some(sort) => sort,
                        None => false,
                    },
                    tags,
                    guid,
                    cards,
                },
            ),
        }
    }
}

/// What a note is stored with as its fields: the contents with the unit
/// separator between them.
pub open spec fn stored_fields(fields: Seq<Seq<char>>) -> Seq<char> {
    joined(fields, "\x1f"@)
}

/// What a note is stored with as its tags: the tags with spaces between
/// them, a space before and a space after.
pub open spec fn stored_tags(tags: Seq<Seq<char>>) -> Seq<char> {
    " "@ + joined(tags, " "@) + " "@
}

/// The views of a result that holds cards.
pub open spec fn cards_outcome(r: Result<Vec<Card>, Error>) -> Result<Seq<Card>, ErrorView> {
    match r {
        Ok(cards) => Ok(cards@),
        Err(e) => Err(e@),
    }
}

/// The views of a result that holds nothing.
pub open spec fn unit_outcome(r: Result<(), Error>) -> Result<(), ErrorView> {
    match r {
        Ok(_) => Ok(()),
        Err(e) => Err(e@),
    }
}

fn owned_texts(texts: &Vec<&str>) -> (r: Vec<String>)
    ensures
        r.deep_view() == texts.deep_view(),
{
    let mut out: Vec<String> = Vec::new();
    let mut i: usize = 0;
    while i < texts.len()
        invariant
            i <= texts.len(),
            out.deep_view() == texts.deep_view().take(i as int),
        decreases texts.len() - i,
    {
        let ghost before = out.deep_view();
        out.push(String::from_str(texts[i]));
        proof {
            assert(out.deep_view() == before.push(texts[i as int]@));
            assert(texts.deep_view().take(i + 1) == before.push(texts[i as int]@));
        }
        i = i + 1;
    }
    proof {
        assert(texts.deep_view().take(texts.len() as int) == texts.deep_view());
    }
    out
}

/// Refuses tags that hold a space.
pub fn validate_tags(tags: &Vec<String>) -> (r: Result<(), Error>)
    ensures
        unit_outcome(r) == if some_tag_holds_space(tags.deep_view(), tags.len() as int) {
            Err::<(), ErrorView>(ErrorView::TagContainsWhitespace)
        } else {
            Ok(())
        },
{
    let mut i: usize = 0;
    while i < tags.len()
        invariant
            i <= tags.len(),
            !some_tag_holds_space(tags.deep_view(), i as int),
        decreases tags.len() - i,
    {
        if contains(tags[i].as_str(), " ") {
            proof {
                assert(holds_space(tags.deep_view()[i as int]));
            }
            return Err(Error::TagContainsWhitespace);
        }
        i = i + 1;
    }
    Ok(())
}

/// Whether the fields meet a need of the kind `any`.
pub fn any_of(ords: &Vec<usize>, fields: &Vec<String>) -> (r: Option<bool>)
    ensures
        r == any_filled(ords@, fields.deep_view(), 0),
{
    let mut i: usize = 0;
    while i < ords.len()
        invariant
            i <= ords.len(),
            any_filled(ords@, fields.deep_view(), 0) == any_filled(
                ords@,
                fields.deep_view(),
                i as int,
            ),
        decreases ords.len() - i,
    {
        let ord = ords[i];
        if ord >= fields.len() {
            return None;
        }
        if !fields[ord].as_str().is_empty() {
            return Some(true);
        }
        i = i + 1;
    }
    Some(false)
}

/// Whether the fields meet a need of the kind `all`.
pub fn all_of(ords: &Vec<usize>, fields: &Vec<String>) -> (r: Option<bool>)
    ensures
        r == all_filled(ords@, fields.deep_view(), 0),
{
    let mut i: usize = 0;
    while i < ords.len()
        invariant
            i <= ords.len(),
            all_filled(ords@, fields.deep_view(), 0) == all_filled(
                ords@,
                fields.deep_view(),
                i as int,
            ),
        decreases ords.len() - i,
    {
        let ord = ords[i];
        if ord >= fields.len() {
            return None;
        }
        if fields[ord].as_str().is_empty() {
            return Some(false);
        }
        i = i + 1;
    }
    Some(true)
}

/// Once a need among the first has refused the note, the note is refused.
pub proof fn lemma_req_cards_failed(
    req: Seq<(usize, Seq<char>, Seq<usize>)>,
    fields: Seq<Seq<char>>,
    model_len: usize,
    n: int,
    m: int,
)
    requires
        0 <= n <= m,
        req_cards(req, fields, model_len, n) is Err,
    ensures
        req_cards(req, fields, model_len, m) == req_cards(req, fields, model_len, n),
    decreases m - n,
{
    if n < m {
        lemma_req_cards_failed(req, fields, model_len, n, m - 1);
    }
}

/// The cards that the needs of a model's templates give a note with these
/// fields.
pub fn cards_from_req(req: &Vec<(usize, String, Vec<usize>)>, fields: &Vec<String>, model_len: usize) -> (r:
    Result<Vec<Card>, Error>)
    ensures
        cards_outcome(r) == req_cards(
            req.deep_view(),
            fields.deep_view(),
            model_len,
            req.len() as int,
        ),
{
    let mut cards: Vec<Card> = Vec::new();
    let mut i: usize = 0;
    while i < req.len()
        invariant
            i <= req.len(),
            req_cards(req.deep_view(), fields.deep_view(), model_len, i as int) == Ok::<
                Seq<Card>,
                ErrorView,
            >(cards@),
        decreases req.len() - i,
    {
        let need = &req[i];
        proof {
            assert(req.deep_view()[i as int] == (need.0, need.1@, need.2@));
            assert(need.2.deep_view() == need.2@);
        }
        let met = if need.1 == String::from_str("any") {
            any_of(&need.2, fields)
        } else {
            all_of(&need.2, fields)
        };
        match met {
            None => {
                proof {
                    lemma_req_cards_failed(
                        req.deep_view(),
                        fields.deep_view(),
                        model_len,
                        i + 1,
                        req.len() as int,
                    );
                }
                return Err(
                    Error::ModelFieldCountMismatch { model_len, card_len: fields.len() },
                );
            },
            Some(met) => {
                if met {
                    cards.push(Card::new(place_number(need.0), false));
                }
            },
        }
        i = i + 1;
    }
    Ok(cards)
}

/// The cards of a note on a model with front and back.
pub fn front_back_cards(model: &Model, self_fields: &Vec<String>) -> (r: Result<Vec<Card>, Error>)
    ensures
        cards_outcome(r) == front_back(model@, self_fields.deep_view()),
{
    match model.req() {
        Err(e) => Err(e),
        Ok(req) => {
            let model_len = model.fields().len();
            cards_from_req(&req, self_fields, model_len)
        },
    }
}

/// What the groups of a pattern caught, read off the matches found.
pub fn groups_of(found: &Option<Vec<Vec<Option<String>>>>) -> (r: Vec<String>)
    ensures
        r.deep_view() == all_groups(found.deep_view()),
{
    let mut out: Vec<String> = Vec::new();
    proof {
        assert(out.deep_view() == Seq::<Seq<char>>::empty());
    }
    match found {
        None => out,
        Some(matches) => {
            let mut i: usize = 0;
            while i < matches.len()
                invariant
                    i <= matches.len(),
                    out.deep_view() == found_groups(matches.deep_view(), i as int),
                decreases matches.len() - i,
            {
                let groups = &matches[i];
                let ghost base = out.deep_view();
                let mut k: usize = 1;
                proof {
                    assert(base + Seq::<Seq<char>>::empty() == base);
                }
                while k < groups.len()
                    invariant
                        1 <= k,
                        k <= groups.len() || (groups.len() == 0 && k == 1),
                        i < matches.len(),
                        groups == &matches[i as int],
                        base == found_groups(matches.deep_view(), i as int),
                        out.deep_view() == base + taken_groups(groups.deep_view(), k as int),
                    decreases groups.len() - k,
                {
                    match &groups[k] {
                        Some(text) => {
                            let ghost before = out.deep_view();
                            out.push(text.clone());
                            proof {
                                assert(out.deep_view() == before.push(text@));
                                assert(groups.deep_view()[k as int] == Some(text@));
                                assert(base + taken_groups(groups.deep_view(), k as int).push(
                                    text@,
                                ) == before.push(text@));
                            }
                        },
                        None => {
                            proof {
                                assert(groups.deep_view()[k as int] is None);
                            }
                        },
                    }
                    k = k + 1;
                }
                proof {
                    let caught = groups.deep_view();
                    assert(matches.deep_view()[i as int] == caught);
                    assert(caught.len() == groups.len());
                    assert(taken_groups(caught, k as int) == taken_groups(
                        caught,
                        caught.len() as int,
                    ));
                    assert(found_groups(matches.deep_view(), i + 1) == found_groups(
                        matches.deep_view(),
                        i as int,
                    ) + taken_groups(caught, caught.len() as int));
                }
                i = i + 1;
            }
            out
        },
    }
}

/// All that the groups of `regex_str` catch in `to_match`.
pub fn re_findall(regex_str: &str, to_match: &str) -> (r: Vec<String>)
    ensures
        r.deep_view() == all_groups(regex_captures(regex_str@, to_match@)),
{
    let found = find_captures(regex_str, to_match);
    groups_of(&found)
}

fn index_of_name(names: &Vec<String>, name: &String) -> (r: usize)
    ensures
        r == first_named(names.deep_view(), name@, 0),
{
    let mut i: usize = 0;
    while i < names.len()
        invariant
            i <= names.len(),
            first_named(names.deep_view(), name@, 0) == first_named(
                names.deep_view(),
                name@,
                i as int,
            ),
        decreases names.len() - i,
    {
        if names[i] == *name {
            return i;
        }
        i = i + 1;
    }
    names.len()
}

/// The numbers of the cards that deletion numbers stand for.
pub fn ords_of_numbers(numbers: &Vec<String>) -> (r: Vec<i64>)
    ensures
        r@ == deletion_ords(numbers.deep_view(), numbers.len() as int),
{
    let mut ords: Vec<i64> = Vec::new();
    let mut i: usize = 0;
    while i < numbers.len()
        invariant
            i <= numbers.len(),
            ords@ == deletion_ords(numbers.deep_view(), i as int),
        decreases numbers.len() - i,
    {
        match parse_decimal(numbers[i].as_str(), 0x7fff_ffff_ffff_ffffu64) {
            Some(n) => {
                if n >= 1 {
                    ords.push((n - 1) as i64);
                }
            },
            None => {},
        }
        i = i + 1;
    }
    ords
}

/// The cards of a note on a cloze model.
pub fn cloze_cards(model: &Model, self_fields: &Vec<String>) -> (r: Vec<Card>)
    ensures
        are_cloze_cards(model@, self_fields.deep_view(), r@),
{
    let templates = model.templates();
    let qfmt = if templates.len() > 0 {
        templates[0].qfmt.clone()
    } else {
        String::new()
    };
    proof {
        if templates.len() > 0 {
            assert(model@.templates[0] == templates[0]@);
        }
    }
    let mut called = re_findall("{{[^}]*?cloze:(?:[^}]?:)*(.+?)}}", qfmt.as_str());
    let mut angled = re_findall("<%cloze:(.+?)%>", qfmt.as_str());
    let ghost first = called.deep_view();
    let ghost second = angled.deep_view();
    called.append(&mut angled);
    proof {
        assert(called.deep_view() == first + second);
        assert(called.deep_view() == cloze_names(qfmt@));
    }
    let fields = model.fields();
    let mut names: Vec<String> = Vec::new();
    let mut f: usize = 0;
    while f < fields.len()
        invariant
            f <= fields.len(),
            fields.deep_view() == model@.fields,
            names.deep_view() == field_names(model@.fields).take(f as int),
        decreases fields.len() - f,
    {
        let ghost before = names.deep_view();
        names.push(fields[f].name.clone());
        proof {
            assert(fields.deep_view()[f as int] == fields[f as int]@);
            assert(names.deep_view() == before.push(fields[f as int].name@));
            assert(field_names(model@.fields).take(f + 1) == before.push(fields[f as int].name@));
        }
        f = f + 1;
    }
    proof {
        assert(field_names(model@.fields).take(fields.len() as int) == field_names(
            model@.fields,
        ));
    }
    let mut all: Vec<i64> = Vec::new();
    let mut i: usize = 0;
    while i < called.len()
        invariant
            i <= called.len(),
            names.deep_view() == field_names(model@.fields),
            all@ == called_ords(
                names.deep_view(),
                self_fields.deep_view(),
                called.deep_view(),
                i as int,
            ),
        decreases called.len() - i,
    {
        let at = index_of_name(&names, &called[i]);
        let content = if at < names.len() && at < self_fields.len() {
            self_fields[at].clone()
        } else {
            String::new()
        };
        proof {
            assert(content@ == named_content(
                names.deep_view(),
                self_fields.deep_view(),
                called.deep_view()[i as int],
            ));
        }
        let numbers = re_findall("(?s){{c(\\d+)::.+?}}", content.as_str());
        let mut ords = ords_of_numbers(&numbers);
        let ghost before = all@;
        let ghost added = ords@;
        all.append(&mut ords);
        proof {
            assert(all@ == before + added);
        }
        i = i + 1;
    }
    let mut card_ords: HashSet<i64> = HashSet::new();
    let mut k: usize = 0;
    proof {
        assert(all@.take(0).to_set() == Set::<i64>::empty());
    }
    while k < all.len()
        invariant
            k <= all.len(),
            card_ords@ == all@.take(k as int).to_set(),
        decreases all.len() - k,
    {
        proof {
            all@.take(k as int).lemma_push_to_set_commute(all@[k as int]);
            assert(all@.take(k + 1) == all@.take(k as int).push(all@[k as int]));
        }
        card_ords.insert(all[k]);
        k = k + 1;
    }
    proof {
        assert(all@.take(all.len() as int) == all@);
    }
    if all.len() == 0 {
        card_ords.insert(0);
        proof {
            assert(card_ords@ == set![0i64]);
        }
    }
    let ghost listed = spec_hash_keys_iter(&card_ords).remaining().unref();
    let mut cards: Vec<Card> = Vec::new();
    for ord in it: card_ords.iter()
        invariant
            it.seq().unref() == listed,
            listed.to_set() == card_ords@,
            listed.no_duplicates(),
            cards.len() == it.index(),
            forall|i: int|
                0 <= i < cards.len() ==> (#[trigger] cards[i]) == (Card {
                    ord: listed[i],
                    suspend: false,
                }),
    {
        cards.push(Card::new(*ord, false));
    }
    proof {
        assert(card_numbers(cards@) == listed);
    }
    cards
}

/// What in `field` looks like an HTML tag and is none; nothing where the
/// search could not be made.
pub fn find_invalid_html_tags_in_field(field: &str) -> (r: Vec<String>)
    ensures
        r.deep_view() == match regex_matches(invalid_tag_pattern(), field@) {
            Some(found) => found,
            None => Seq::empty(),
        },
{
    match find_matches("<(?!/?[a-z0-9]+(?: .*|/?)>)(?:.|\\n)*?>", field) {
        Some(found) => found,
        None => {
            let none: Vec<String> = Vec::new();
            proof {
                assert(none.deep_view() == Seq::<Seq<char>>::empty());
            }
            none
        },
    }
}

/// Whether `guid` is what a note gets as its identifier when `chosen` was
/// asked for: the chosen text, or else a generated one.
pub open spec fn guid_fits(chosen: Option<Seq<char>>, guid: Seq<char>) -> bool {
    match chosen {
        Some(text) => guid == text,
        None => is_generated_guid(guid),
    }
}

/// What is wrong with the number of fields of a note, if anything.
pub open spec fn field_count_check(note: NoteView) -> Result<(), ErrorView> {
    if note.model.fields.len() != note.fields.len() {
        Err(
            ErrorView::ModelFieldCountMismatch {
                model_len: note.model.fields.len() as usize,
                card_len: note.fields.len() as usize,
            },
        )
    } else {
        Ok(())
    }
}

/// What in a field looks like an HTML tag and is none.
pub open spec fn invalid_tags(field: Seq<char>) -> Seq<Seq<char>> {
    match regex_matches(invalid_tag_pattern(), field) {
        Some(found) => found,
        None => Seq::empty(),
    }
}

/// The warnings about the first `n` fields: each field that holds invalid
/// tags, with those tags.
pub open spec fn tag_warnings(fields: Seq<Seq<char>>, n: int) -> Seq<(Seq<char>, Seq<Seq<char>>)>
    decreases n,
{
    if n <= 0 {
        Seq::empty()
    } else {
        let before = tag_warnings(fields, n - 1);
        let found = invalid_tags(fields[n - 1]);
        if found.len() > 0 {
            before.push((fields[n - 1], found))
        } else {
            before
        }
    }
}

fn clone_cards(cards: &Vec<Card>) -> (r: Vec<Card>)
    ensures
        r@ == cards@,
{
    let mut out: Vec<Card> = Vec::new();
    let mut i: usize = 0;
    while i < cards.len()
        invariant
            i <= cards.len(),
            out@ == cards@.take(i as int),
        decreases cards.len() - i,
    {
        out.push(cards[i]);
        proof {
            assert(out@ == cards@.take(i + 1));
        }
        i = i + 1;
    }
    proof {
        assert(cards@.take(cards.len() as int) == cards@);
    }
    out
}

impl Clone for Note {
    fn clone(&self) -> (r: Self)
        ensures
            r@ == self@,
    {
        Note {
            model: self.model.clone(),
            fields: clone_texts(&self.fields),
            sort_field: self.sort_field,
            tags: clone_texts(&self.tags),
            guid: self.guid.clone(),
            cards: clone_cards(&self.cards),
        }
    }
}

fn make_cards(model: &Model, fields: &Vec<String>) -> (r: Result<Vec<Card>, Error>)
    ensures
        match r {
            Ok(cards) => cards_refusal(model@, fields.deep_view()) is None && are_cards_for(
                model@,
                fields.deep_view(),
                cards@,
            ),
            Err(e) => cards_refusal(model@, fields.deep_view()) == Some(e@),
        },
{
    match model.get_model_type() {
        ModelType::FrontBack => front_back_cards(model, fields),
        ModelType::Cloze => Ok(cloze_cards(model, fields)),
    }
}

impl Note {
    /// A note on `model` with these fields, no tags, and a generated
    /// identifier. The note is refused where its cards cannot be told.
    pub fn new(model: Model, fields: Vec<&str>) -> (r: Result<Note, Error>)
        ensures
            match r {
                Ok(note) => note_of(
                    model@,
                    fields.deep_view(),
                    None,
                    Seq::empty(),
                    note@.guid,
                    note@.cards,
                ) == Ok::<NoteView, ErrorView>(note@) && is_generated_guid(note@.guid)
                    && are_cards_for(model@, fields.deep_view(), note@.cards),
                Err(e) => note_of(
                    model@,
                    fields.deep_view(),
                    None,
                    Seq::empty(),
                    Seq::empty(),
                    Seq::empty(),
                ) == Err::<NoteView, ErrorView>(e@),
            },
    {
        let fields = owned_texts(&fields);
        let tags: Vec<String> = Vec::new();
        proof {
            assert(tags.deep_view() == Seq::<Seq<char>>::empty());
        }
        match make_cards(&model, &fields) {
            Err(e) => Err(e),
            Ok(cards) => {
                let guid = guid_for(&fields);
                Ok(Note { model, fields, sort_field: false, tags, guid, cards })
            },
        }
    }

    /// A note on `model` with these fields and the options that are given:
    /// whether to sort by this note's field, its tags, and its identifier.
    /// The note is refused where a tag holds a space, or where its cards
    /// cannot be told.
    pub fn new_with_options(
        model: Model,
        fields: Vec<&str>,
        sort_field: Option<bool>,
        tags: Option<Vec<&str>>,
        guid: Option<&str>,
    ) -> (r: Result<Note, Error>)
        ensures
            match r {
                Ok(note) => note_of(
                    model@,
                    fields.deep_view(),
                    sort_field,
                    given_tags(tags),
                    note@.guid,
                    note@.cards,
                ) == Ok::<NoteView, ErrorView>(note@) && guid_fits(guid.deep_view(), note@.guid)
                    && are_cards_for(model@, fields.deep_view(), note@.cards),
                Err(e) => note_of(
                    model@,
                    fields.deep_view(),
                    sort_field,
                    given_tags(tags),
                    Seq::empty(),
                    Seq::empty(),
                ) == Err::<NoteView, ErrorView>(e@),
            },
    {
        let tags: Vec<String> = match &tags {
            Some(given) => owned_texts(given),
            None => {
                let none: Vec<String> = Vec::new();
                proof {
                    assert(none.deep_view() == Seq::<Seq<char>>::empty());
                }
                none
            },
        };
        match validate_tags(&tags) {
            Err(e) => {
                return Err(e);
            },
            Ok(_) => {},
        }
        let fields = owned_texts(&fields);
        match make_cards(&model, &fields) {
            Err(e) => Err(e),
            Ok(cards) => {
                let guid = match guid {
                    Some(chosen) => String::from_str(chosen),
                    None => guid_for(&fields),
                };
                Ok(
                    Note {
                        model,
                        fields,
                        sort_field: match sort_field {
                            Some(sort) => sort,
                            None => false,
                        },
                        tags,
                        guid,
                        cards,
                    },
                )
            },
        }
    }

    /// Chooses whether to sort by this note's field.
    pub fn sort_field(self, sort_field: bool) -> (r: Note)
        ensures
            r@ == (NoteView { sort_field, ..self@ }),
    {
        let mut note = self;
        note.sort_field = sort_field;
        note
    }

    /// Replaces the tags of the note.
    pub fn tags(self, tags: Vec<&str>) -> (r: Note)
        ensures
            r@ == (NoteView { tags: tags.deep_view(), ..self@ }),
    {
        let mut note = self;
        note.tags = owned_texts(&tags);
        note
    }

    /// Adds a tag after those the note has.
    pub fn with_tag(self, tag: &str) -> (r: Note)
        ensures
            r@ == (NoteView { tags: self@.tags.push(tag@), ..self@ }),
    {
        let mut note = self;
        let ghost before = note.tags.deep_view();
        note.tags.push(String::from_str(tag));
        proof {
            assert(note.tags.deep_view() == before.push(tag@));
        }
        note
    }

    /// Chooses the identifier of the note.
    pub fn guid(self, guid: &str) -> (r: Note)
        ensures
            r@ == (NoteView { guid: guid@, ..self@ }),
    {
        let mut note = self;
        note.guid = String::from_str(guid);
        note
    }

    /// The model of the note.
    pub fn model(&self) -> (r: Model)
        ensures
            r@ == self@.model,
    {
        self.model.clone()
    }

    /// The cards of the note.
    pub fn cards(&self) -> (r: Vec<Card>)
        ensures
            r@ == self@.cards,
    {
        clone_cards(&self.cards)
    }

    /// The identifier of the note.
    pub fn get_guid(&self) -> (r: String)
        ensures
            r@ == self@.guid,
    {
        self.guid.clone()
    }

    /// Whether the note is marked to sort by its field.
    pub fn get_sort_field(&self) -> (r: bool)
        ensures
            r == self@.sort_field,
    {
        self.sort_field
    }

    /// Refuses a note that has another number of fields than its model.
    pub fn check_number_model_fields_matches_num_fields(&self) -> (r: Result<(), Error>)
        ensures
            unit_outcome(r) == field_count_check(self@),
    {
        let model_len = self.model.fields().len();
        if model_len != self.fields.len() {
            Err(Error::ModelFieldCountMismatch { model_len, card_len: self.fields.len() })
        } else {
            Ok(())
        }
    }

    /// The fields of the note that hold what looks like an HTML tag and is
    /// none, each with what was found in it.
    pub fn check_invalid_html_tags_in_fields(&self) -> (r: Vec<(String, Vec<String>)>)
        ensures
            r.deep_view() == tag_warnings(self@.fields, self@.fields.len() as int),
    {
        let mut warnings: Vec<(String, Vec<String>)> = Vec::new();
        let mut i: usize = 0;
        proof {
            assert(warnings.deep_view() == Seq::<(Seq<char>, Seq<Seq<char>>)>::empty());
        }
        while i < self.fields.len()
            invariant
                i <= self.fields.len(),
                warnings.deep_view() == tag_warnings(self@.fields, i as int),
            decreases self.fields.len() - i,
        {
            let found = find_invalid_html_tags_in_field(self.fields[i].as_str());
            proof {
                assert(self@.fields[i as int] == self.fields[i as int]@);
            }
            if found.len() > 0 {
                let ghost before = warnings.deep_view();
                let field = self.fields[i].clone();
                proof {
                    assert((field, found).deep_view() == (field@, found.deep_view()));
                }
                warnings.push((field, found));
                proof {
                    assert(warnings.deep_view() == before.push(
                        (self.fields[i as int]@, invalid_tags(self.fields[i as int]@)),
                    ));
                }
            }
            i = i + 1;
        }
        warnings
    }

    /// The fields as they are stored.
    pub fn format_fields(&self) -> (r: String)
        ensures
            r@ == stored_fields(self@.fields),
    {
        join(&self.fields, "\x1f")
    }

    /// The tags as they are stored.
    pub fn format_tags(&self) -> (r: String)
        ensures
            r@ == stored_tags(self@.tags),
    {
        String::from_str(" ").concat(join(&self.tags, " ").as_str()).concat(" ")
    }
}

/// The tags that were given, or none.
pub open spec fn given_tags(tags: Option<Vec<&str>>) -> Seq<Seq<char>> {
    match tags {
        Some(given) => given.deep_view(),
        None => Seq::empty(),
    }
}

} // verus!
