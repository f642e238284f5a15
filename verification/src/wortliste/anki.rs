//! The deck that is made of the word list.

use crate::anki::builders::field::{Field, FieldView};
use crate::anki::builders::template::{Template, TemplateView};
use crate::anki::deck::{Deck, DeckView};
use crate::anki::error::{Error, ErrorView};
use crate::anki::guid::is_generated_guid;
use crate::anki::model::{model_of, Model, ModelView};
use crate::anki::builders::template::template_entry;
use crate::anki::note::{are_cards_for, cards_refusal, Note, NoteView};
use crate::text::{format_i64, signed_decimal};
use crate::wortliste::db::{Translation, TranslationView, WordItem, WordItemView};
use vstd::prelude::*;
use vstd::string::StringExecFns;

verus! {

/// The names of the fields of the model, in their order.
pub open spec fn model_field_names() -> Seq<Seq<char>> {
    seq![
        "AudioWord"@,
        "WordTranslation"@,
        "Word"@,
        "Sentence"@,
        "SentenceTranslation"@,
        "AudioWordTranslation"@,
        "AudioSentence"@,
        "AudioSentenceTranslation"@,
        "Level"@,
        "CountryISO"@,
        "Picture"@,
        "Word-Symbol"@,
        "Tags"@,
        "Note/Mnemonic"@,
        "CreateReversed"@,
    ]
}

/// A field with a name and no setting chosen.
pub open spec fn plain_field(name: Seq<char>) -> FieldView {
    FieldView { name, sticky: None, rtl: None, font: None, size: None }
}

/// A template with its two formats chosen.
pub open spec fn card_template(name: Seq<char>, question: Seq<char>, answer: Seq<char>) -> TemplateView {
    TemplateView {
        name,
        qfmt: Some(question),
        did: None,
        bafmt: None,
        afmt: Some(answer),
        bqfmt: None,
    }
}

/// The model of the deck: fifteen fields and one card, with the formats and
/// the style sheet that are given.
pub open spec fn basic_model_of(question: Seq<char>, answer: Seq<char>, css: Seq<char>) -> ModelView {
    ModelView {
        css,
        ..model_of(
            1607392319,
            "German model (and reversed card)"@,
            Seq::new(15, |i: int| plain_field(model_field_names()[i])),
            seq![card_template("Card 1"@, question, answer)],
            None,
            None,
            None,
            None,
            None,
        )
    }
}

/// The model of the deck with a second card that asks the other way round.
pub open spec fn reversed_model_of(
    question: Seq<char>,
    answer: Seq<char>,
    css: Seq<char>,
    reversed_question: Seq<char>,
    reversed_answer: Seq<char>,
) -> ModelView {
    let basic = basic_model_of(question, answer, css);
    ModelView {
        templates: basic.templates.push(
            template_entry(card_template("Card 2"@, reversed_question, reversed_answer)),
        ),
        ..basic
    }
}

/// The text that was given, or the empty one.
pub open spec fn text_or_empty(text: Option<Seq<char>>) -> Seq<char> {
    match text {
        Some(t) => t,
        None => Seq::empty(),
    }
}

/// The name of the sound file of an entry, as a note refers to it.
pub open spec fn sound_reference(id: i64) -> Seq<char> {
    "[sound:"@ + signed_decimal(id as int) + ".ogg]"@
}

/// The path of the sound file of an entry.
pub open spec fn sound_path(id: i64) -> Seq<char> {
    "audio/"@ + signed_decimal(id as int) + ".ogg"@
}

/// The fields of the note of an entry: the sound, the translation, the word,
/// the description of the word, the description of the translation, and the
/// constants of the deck.
pub open spec fn entry_fields(word: WordItemView, translation: TranslationView) -> Seq<Seq<char>> {
    seq![
        sound_reference(word.id),
        translation.translation,
        word.word,
        text_or_empty(word.description),
        text_or_empty(translation.description),
        Seq::empty(),
        Seq::empty(),
        Seq::empty(),
        Seq::empty(),
        "DE"@,
        Seq::empty(),
        Seq::empty(),
        Seq::empty(),
        Seq::empty(),
        "true"@,
    ]
}

/// The media files that every package of the deck holds.
pub open spec fn fixed_media() -> Seq<Seq<char>> {
    seq!["media/_flag_de.svg"@, "media/flag_de.svg"@, "media/germany-flag-1783774.svg"@]
}

/// The model of the deck.
pub fn basic_model(question: &str, answer: &str, css: &str) -> (r: Model)
    ensures
        r@ == basic_model_of(question@, answer@, css@),
{
    let mut fields: Vec<Field> = Vec::new();
    fields.push(Field::new("AudioWord"));
    fields.push(Field::new("WordTranslation"));
    fields.push(Field::new("Word"));
    fields.push(Field::new("Sentence"));
    fields.push(Field::new("SentenceTranslation"));
    fields.push(Field::new("AudioWordTranslation"));
    fields.push(Field::new("AudioSentence"));
    fields.push(Field::new("AudioSentenceTranslation"));
    fields.push(Field::new("Level"));
    fields.push(Field::new("CountryISO"));
    fields.push(Field::new("Picture"));
    fields.push(Field::new("Word-Symbol"));
    fields.push(Field::new("Tags"));
    fields.push(Field::new("Note/Mnemonic"));
    fields.push(Field::new("CreateReversed"));
    let mut templates: Vec<Template> = Vec::new();
    templates.push(Template::new("Card 1").qfmt(question).afmt(answer));
    proof {
        assert(fields.deep_view() == Seq::new(15, |i: int| plain_field(model_field_names()[i])));
        assert(templates.deep_view() == seq![card_template("Card 1"@, question@, answer@)]);
    }
    Model::new(1607392319, "German model (and reversed card)", fields, templates).css(css)
}

/// The model of the deck with a second card that asks the other way round.
pub fn basic_model_reversed(
    question: &str,
    answer: &str,
    css: &str,
    reversed_question: &str,
    reversed_answer: &str,
) -> (r: Model)
    ensures
        r@ == reversed_model_of(question@, answer@, css@, reversed_question@, reversed_answer@),
{
    let model = basic_model(question, answer, css);
    model.with_template(Template::new("Card 2").qfmt(reversed_question).afmt(reversed_answer))
}

fn owned_or_empty(text: &Option<String>) -> (r: String)
    ensures
        r@ == text_or_empty(text.deep_view()),
{
    match text {
        Some(t) => t.clone(),
        None => String::new(),
    }
}

/// The name of the sound file of an entry, as a note refers to it.
pub fn sound_reference_of(id: i64) -> (r: String)
    ensures
        r@ == sound_reference(id),
{
    String::from_str("[sound:").concat(format_i64(id).as_str()).concat(".ogg]")
}

/// The path of the sound file of an entry.
pub fn sound_path_of(id: i64) -> (r: String)
    ensures
        r@ == sound_path(id),
{
    String::from_str("audio/").concat(format_i64(id).as_str()).concat(".ogg")
}

/// The fields of the note of an entry.
pub fn note_fields(word: &WordItem, translation: &Translation) -> (r: Vec<String>)
    ensures
        r.deep_view() == entry_fields(word@, translation@),
{
    let mut fields: Vec<String> = Vec::new();
    fields.push(sound_reference_of(word.id));
    fields.push(translation.translation.clone());
    fields.push(word.word.clone());
    fields.push(owned_or_empty(&word.description));
    fields.push(owned_or_empty(&translation.description));
    fields.push(String::new());
    fields.push(String::new());
    fields.push(String::new());
    fields.push(String::new());
    fields.push(String::from_str("DE"));
    fields.push(String::new());
    fields.push(String::new());
    fields.push(String::new());
    fields.push(String::new());
    fields.push(String::from_str("true"));
    proof {
        assert(fields.deep_view() == entry_fields(word@, translation@));
    }
    fields
}

/// The media files that every package of the deck holds.
pub fn fixed_media_files() -> (r: Vec<String>)
    ensures
        r.deep_view() == fixed_media(),
{
    let mut files: Vec<String> = Vec::new();
    files.push(String::from_str("media/_flag_de.svg"));
    files.push(String::from_str("media/flag_de.svg"));
    files.push(String::from_str("media/germany-flag-1783774.svg"));
    proof {
        assert(files.deep_view() == fixed_media());
    }
    files
}

/// The bytes that `text` stands for in base 64 with the standard alphabet
/// and padding; `None` where `text` is no such writing.
pub uninterp spec fn base64_decoded(text: Seq<char>) -> Option<Seq<u8>>;

/// Runs `base64::Engine::decode` of the engine
/// `base64::engine::general_purpose::STANDARD` on `text`. The result is the
/// value named [`base64_decoded`].
#[verifier::external_body]
pub(crate) fn decode_base64(text: &str) -> (r: Option<Vec<u8>>)
    ensures
        r.deep_view() == base64_decoded(text@),
{
    base64::Engine::decode(&base64::engine::general_purpose::STANDARD, text).ok()
}

/// The sound of a translation as it is written to its file: the path of the
/// file and the bytes, which are `None` where the sound is no base 64.
/// `None` as a whole where the translation has no sound.
pub open spec fn sound_file(word: WordItemView, translation: TranslationView) -> Option<
    (Seq<char>, Option<Seq<u8>>),
> {
    match translation.audio {
        Some(audio) => Some((sound_path(word.id), base64_decoded(audio))),
        None => None,
    }
}

/// The sound of a translation as it is written to its file.
pub fn sound_file_of(word: &WordItem, translation: &Translation) -> (r: Option<
    (String, Option<Vec<u8>>),
>)
    ensures
        r.deep_view() == sound_file(word@, translation@),
{
    match &translation.audio {
        Some(audio) => Some((sound_path_of(word.id), decode_base64(audio.as_str()))),
        None => None,
    }
}

/// The deck before any note is in it.
pub open spec fn empty_deck() -> DeckView {
    DeckView {
        id: 2059400110,
        name: "Goethe-Zertifikat B1"@,
        description: "Deutschprüfung für Jugendliche und Erwachsene"@,
        notes: Seq::empty(),
        models: Map::empty(),
    }
}

/// Whether `notes` are the notes of the first `n` entries on `model`, in the
/// order of the entries.
pub open spec fn notes_of_entries(
    notes: Seq<NoteView>,
    data: Seq<(WordItemView, TranslationView)>,
    model: ModelView,
    n: int,
) -> bool {
    &&& notes.len() == n
    &&& forall|i: int|
        0 <= i < n ==> is_entry_note(#[trigger] notes[i], data[i].0, data[i].1, model)
}

/// The first of the first `n` entries whose note the model refuses, if there
/// is one, with the reason.
pub open spec fn first_refusal(
    data: Seq<(WordItemView, TranslationView)>,
    model: ModelView,
    n: int,
) -> Option<ErrorView>
    decreases n,
{
    if n <= 0 {
        None
    } else {
        match first_refusal(data, model, n - 1) {
            Some(e) => Some(e),
            None => cards_refusal(model, entry_fields(data[n - 1].0, data[n - 1].1)),
        }
    }
}

/// Once an entry among the first is refused, the list is refused alike.
pub proof fn lemma_refusal_stays(
    data: Seq<(WordItemView, TranslationView)>,
    model: ModelView,
    n: int,
    m: int,
)
    requires
        0 <= n <= m,
        first_refusal(data, model, n) is Some,
    ensures
        first_refusal(data, model, m) == first_refusal(data, model, n),
    decreases m - n,
{
    if n < m {
        lemma_refusal_stays(data, model, n, m - 1);
    }
}

/// Whether `note` is the note of an entry on `model`: it has the fields of
/// the entry, the cards that the model makes of them, no tags, and a
/// generated identifier.
pub open spec fn is_entry_note(
    note: NoteView,
    word: WordItemView,
    translation: TranslationView,
    model: ModelView,
) -> bool {
    &&& note.model == model
    &&& note.fields == entry_fields(word, translation)
    &&& note.tags == Seq::<Seq<char>>::empty()
    &&& !note.sort_field
    &&& are_cards_for(model, note.fields, note.cards)
    &&& is_generated_guid(note.guid)
}

/// The deck of the word list before any note is in it.
pub fn new_deck() -> (r: Deck)
    ensures
        r@ == empty_deck(),
{
    Deck::new(2059400110, "Goethe-Zertifikat B1", "Deutschprüfung für Jugendliche und Erwachsene")
}

/// Makes the note of one entry. The note is refused where the model cannot
/// tell its cards.
pub fn entry_note(word: &WordItem, translation: &Translation, model: &Model) -> (r: Result<
    Note,
    Error,
>)
    ensures
        match r {
            Ok(note) => cards_refusal(model@, entry_fields(word@, translation@)) is None
                && is_entry_note(note@, word@, translation@, model@),
            Err(e) => cards_refusal(model@, entry_fields(word@, translation@)) == Some(e@),
        },
{
    let fields = note_fields(word, translation);
    let mut borrowed: Vec<&str> = Vec::new();
    let mut k: usize = 0;
    while k < fields.len()
        invariant
            k <= fields.len(),
            borrowed.deep_view() == fields.deep_view().take(k as int),
        decreases fields.len() - k,
    {
        let ghost before = borrowed.deep_view();
        borrowed.push(fields[k].as_str());
        proof {
            assert(borrowed.deep_view() == before.push(fields[k as int]@));
            assert(fields.deep_view().take(k + 1) == before.push(fields[k as int]@));
        }
        k = k + 1;
    }
    proof {
        assert(fields.deep_view().take(fields.len() as int) == fields.deep_view());
    }
    Note::new(model.clone(), borrowed)
}

/// Makes the deck of the word list: one note for each entry, in the order of
/// the entries. The deck is refused with the reason of the first entry whose
/// note the model refuses.
pub fn build_deck(data: &Vec<(WordItem, Translation)>, model: &Model) -> (r: Result<Deck, Error>)
    ensures
        match r {
            Ok(deck) => first_refusal(data.deep_view(), model@, data.len() as int) is None
                && deck@ == (DeckView { notes: deck@.notes, ..empty_deck() })
                && notes_of_entries(deck@.notes, data.deep_view(), model@, data.len() as int),
            Err(e) => first_refusal(data.deep_view(), model@, data.len() as int) == Some(e@),
        },
{
    let mut deck = new_deck();
    let mut i: usize = 0;
    while i < data.len()
        invariant
            i <= data.len(),
            first_refusal(data.deep_view(), model@, i as int) is None,
            deck@ == (DeckView { notes: deck@.notes, ..empty_deck() }),
            notes_of_entries(deck@.notes, data.deep_view(), model@, i as int),
        decreases data.len() - i,
    {
        proof {
            assert(data.deep_view()[i as int] == (data[i as int].0@, data[i as int].1@));
        }
        match entry_note(&data[i].0, &data[i].1, model) {
            Err(e) => {
                proof {
                    lemma_refusal_stays(data.deep_view(), model@, i + 1, data.len() as int);
                }
                return Err(e);
            },
            Ok(note) => {
                let ghost before = deck@.notes;
                deck.add_note(note);
                proof {
                    assert(deck@.notes == before.push(note@));
                    assert forall|j: int| 0 <= j < i + 1 implies is_entry_note(
                        #[trigger] deck@.notes[j],
                        data.deep_view()[j].0,
                        data.deep_view()[j].1,
                        model@,
                    ) by {
                        if j < i {
                            assert(deck@.notes[j] == before[j]);
                        }
                    }
                }
            },
        }
        i = i + 1;
    }
    Ok(deck)
}

} // verus!
