//! Decks: a name, a description, notes, and the models that the notes are
//! made on.

use crate::anki::db_entries::{DeckDbEntry, DeckDbEntryView};
use crate::anki::model::{Model, ModelView};
use crate::anki::note::{Note, NoteView};
use std::collections::HashMap;
use vstd::prelude::*;
use vstd::std_specs::hash::spec_keys_iter;
use vstd::std_specs::iter::IteratorSpec;
use vstd::string::StringExecFns;

verus! {

/// A deck of notes.
#[derive(Debug)]
pub struct Deck {
    id: i64,
    name: String,
    description: String,
    notes: Vec<Note>,
    models: HashMap<i64, Model>,
}

/// The mathematical value of a [`Deck`]. The models are kept under their
/// identifiers.
pub struct DeckView {
    pub id: i64,
    pub name: Seq<char>,
    pub description: Seq<char>,
    pub notes: Seq<NoteView>,
    pub models: Map<i64, ModelView>,
}

/// The values of the models of a map.
pub open spec fn model_views(models: Map<i64, Model>) -> Map<i64, ModelView> {
    models.map_values(|model: Model| model@)
}

impl View for Deck {
    type V = DeckView;

    closed spec fn view(&self) -> DeckView {
        DeckView {
            id: self.id,
            name: self.name@,
            description: self.description@,
            notes: self.notes.deep_view(),
            models: model_views(self.models@),
        }
    }
}

impl DeepView for Deck {
    type V = DeckView;

    open spec fn deep_view(&self) -> DeckView {
        self@
    }
}

/// `models` with the models of the first `n` notes put in under their
/// identifiers, note after note: of two models with one identifier the later
/// one stays.
pub open spec fn with_note_models(
    models: Map<i64, ModelView>,
    notes: Seq<NoteView>,
    n: int,
) -> Map<i64, ModelView>
    decreases n,
{
    if n <= 0 {
        models
    } else {
        with_note_models(models, notes, n - 1).insert(notes[n - 1].model.id, notes[n - 1].model)
    }
}

/// The identifiers of a list of models that are listed with them.
pub open spec fn listed_ids(listed: Seq<(i64, Model)>) -> Seq<i64> {
    Seq::new(listed.len(), |i: int| listed[i].0)
}

/// The record that stores a deck.
pub open spec fn deck_entry(deck: DeckView) -> DeckDbEntryView {
    DeckDbEntryView {
        collapsed: false,
        conf: 1,
        desc: deck.description,
        deck_db_entry_dyn: 0,
        extend_new: 0,
        extend_rev: 50,
        id: deck.id,
        lrn_today: seq![163i64, 2i64],
        deck_db_entry_mod: 1425278051,
        name: deck.name,
        new_today: seq![163i64, 2i64],
        rev_today: seq![163i64, 0i64],
        time_today: seq![163i64, 23598i64],
        usn: -1i64,
    }
}

fn clone_notes(notes: &Vec<Note>) -> (r: Vec<Note>)
    ensures
        r.deep_view() == notes.deep_view(),
{
    let mut out: Vec<Note> = Vec::new();
    let mut i: usize = 0;
    while i < notes.len()
        invariant
            i <= notes.len(),
            out.deep_view() == notes.deep_view().take(i as int),
        decreases notes.len() - i,
    {
        let ghost before = out.deep_view();
        out.push(notes[i].clone());
        proof {
            assert(out.deep_view() == before.push(notes[i as int]@));
            assert(notes.deep_view().take(i + 1) == before.push(notes[i as int]@));
        }
        i = i + 1;
    }
    proof {
        assert(notes.deep_view().take(notes.len() as int) == notes.deep_view());
    }
    out
}

impl Clone for Deck {
    fn clone(&self) -> (r: Self)
        ensures
            r@ == self@,
    {
        Deck {
            id: self.id,
            name: self.name.clone(),
            description: self.description.clone(),
            notes: clone_notes(&self.notes),
            models: self.models.clone(),
        }
    }
}

impl Deck {
    /// An empty deck. `id` should differ from deck to deck.
    pub fn new(id: i64, name: &str, description: &str) -> (r: Deck)
        ensures
            r@ == (DeckView {
                id,
                name: name@,
                description: description@,
                notes: Seq::empty(),
                models: Map::empty(),
            }),
    {
        let deck = Deck {
            id,
            name: String::from_str(name),
            description: String::from_str(description),
            notes: Vec::new(),
            models: HashMap::new(),
        };
        proof {
            assert(deck.notes.deep_view() == Seq::<NoteView>::empty());
            assert(model_views(deck.models@) == Map::<i64, ModelView>::empty());
        }
        deck
    }

    /// Adds a note after those the deck has.
    pub fn add_note(&mut self, note: Note)
        ensures
            final(self)@ == (DeckView { notes: old(self)@.notes.push(note@), ..old(self)@ }),
    {
        let ghost before = self.notes.deep_view();
        self.notes.push(note);
        proof {
            assert(self.notes.deep_view() == before.push(note@));
        }
    }

    /// Puts a model in under its identifier, in place of the model that was
    /// there.
    pub fn add_model(&mut self, model: Model)
        ensures
            final(self)@ == (DeckView {
                models: old(self)@.models.insert(model@.id, model@),
                ..old(self)@
            }),
    {
        let ghost before = self.models@;
        let id = model.get_id();
        self.models.insert(id, model);
        proof {
            assert(model_views(self.models@) == model_views(before).insert(id, model@));
        }
    }

    /// Puts the model of every note of the deck in, note after note.
    pub fn collect_models(&mut self)
        ensures
            final(self)@ == (DeckView {
                models: with_note_models(
                    old(self)@.models,
                    old(self)@.notes,
                    old(self)@.notes.len() as int,
                ),
                ..old(self)@
            }),
    {
        let mut i: usize = 0;
        while i < self.notes.len()
            invariant
                i <= self.notes.len(),
                self@ == (DeckView {
                    models: with_note_models(old(self)@.models, old(self)@.notes, i as int),
                    ..old(self)@
                }),
            decreases self.notes.len() - i,
        {
            let model = self.notes[i].model();
            let ghost count = self.notes.len();
            proof {
                assert(self@.notes[i as int] == self.notes[i as int]@);
                assert(self@.notes.len() == count);
            }
            self.add_model(model);
            proof {
                assert(self@.notes.len() == count);
                assert(self.notes.deep_view().len() == self.notes.len());
            }
            i = i + 1;
        }
    }

    /// The record that stores the deck.
    pub fn to_deck_db_entry(&self) -> (r: DeckDbEntry)
        ensures
            r@ == deck_entry(self@),
    {
        let mut lrn_today: Vec<i64> = Vec::new();
        lrn_today.push(163);
        lrn_today.push(2);
        let mut new_today: Vec<i64> = Vec::new();
        new_today.push(163);
        new_today.push(2);
        let mut rev_today: Vec<i64> = Vec::new();
        rev_today.push(163);
        rev_today.push(0);
        let mut time_today: Vec<i64> = Vec::new();
        time_today.push(163);
        time_today.push(23598);
        proof {
            assert(lrn_today@ == seq![163i64, 2i64]);
            assert(new_today@ == seq![163i64, 2i64]);
            assert(rev_today@ == seq![163i64, 0i64]);
            assert(time_today@ == seq![163i64, 23598i64]);
        }
        DeckDbEntry {
            collapsed: false,
            conf: 1,
            desc: self.description.clone(),
            deck_db_entry_dyn: 0,
            extend_new: 0,
            extend_rev: 50,
            id: self.id,
            lrn_today,
            deck_db_entry_mod: 1425278051,
            name: self.name.clone(),
            new_today,
            rev_today,
            time_today,
            usn: -1,
        }
    }

    /// The identifier of the deck.
    pub fn id(&self) -> (r: i64)
        ensures
            r == self@.id,
    {
        self.id
    }

    /// The notes of the deck.
    pub fn notes(&self) -> (r: Vec<Note>)
        ensures
            r.deep_view() == self@.notes,
    {
        clone_notes(&self.notes)
    }

    /// The models of the deck, each with the identifier it is kept under:
    /// every identifier once, in the order in which the hash map is walked,
    /// of which nothing is known.
    pub fn models(&self) -> (r: Vec<(i64, Model)>)
        ensures
            listed_ids(r@).no_duplicates(),
            listed_ids(r@).to_set() == self@.models.dom(),
            forall|i: int| 0 <= i < r.len() ==> (#[trigger] r[i]).1@ == self@.models[r[i].0],
    {
        let ghost listed = spec_keys_iter(&self.models).remaining().unref();
        let mut out: Vec<(i64, Model)> = Vec::new();
        for key in it: self.models.keys()
            invariant
                it.seq().unref() == listed,
                listed.to_set() == self.models@.dom(),
                listed.no_duplicates(),
                out.len() == it.index(),
                forall|i: int|
                    0 <= i < out.len() ==> (#[trigger] out[i]).0 == listed[i] && out[i].1@
                        == self.models@[listed[i]]@,
        {
            proof {
                assert(listed.contains(*key));
                assert(self.models@.dom().contains(*key));
            }
            match self.models.get(key) {
                Some(model) => {
                    out.push((*key, model.clone()));
                },
                None => {
                    assert(false);
                },
            }
        }
        proof {
            assert(listed_ids(out@) == listed);
            assert(model_views(self.models@).dom() == self.models@.dom());
        }
        out
    }
}

} // verus!
