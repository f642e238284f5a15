//! The records that a collection stores for fields, templates and decks.

use vstd::prelude::*;

verus! {

/// A field of a model as the collection stores it.
#[derive(Debug)]
pub struct Fld {
    pub name: String,
    pub media: Vec<String>,
    pub sticky: bool,
    pub rtl: bool,
    pub ord: i64,
    pub font: String,
    pub size: i64,
}

/// The mathematical value of a [`Fld`].
pub struct FldView {
    pub name: Seq<char>,
    pub media: Seq<Seq<char>>,
    pub sticky: bool,
    pub rtl: bool,
    pub ord: i64,
    pub font: Seq<char>,
    pub size: i64,
}

impl View for Fld {
    type V = FldView;

    open spec fn view(&self) -> FldView {
        FldView {
            name: self.name@,
            media: self.media.deep_view(),
            sticky: self.sticky,
            rtl: self.rtl,
            ord: self.ord,
            font: self.font@,
            size: self.size,
        }
    }
}

impl DeepView for Fld {
    type V = FldView;

    open spec fn deep_view(&self) -> FldView {
        self@
    }
}

/// A copy of a list of texts.
pub fn clone_texts(texts: &Vec<String>) -> (r: Vec<String>)
    ensures
        r.deep_view() == texts.deep_view(),
{
    let mut out: Vec<String> = Vec::new();
    let mut i: usize = 0;
    while i < texts.len()
        invariant
            i <= texts.len(),
            out.deep_view() == texts.deep_view().take(i as int),
        decreases texts.len() - i,
    {
        let ghost before = out.deep_view();
        out.push(texts[i].clone());
        proof {
            assert(out.deep_view() == before.push(texts[i as int]@));
            assert(texts.deep_view().take(i + 1) == before.push(texts[i as int]@));
        }
        i = i + 1;
    }
    proof {
        assert(texts.deep_view().take(texts.len() as int) == texts.deep_view());
    }
    out
}

impl Clone for Fld {
    fn clone(&self) -> (r: Self)
        ensures
            r@ == self@,
    {
        Fld {
            name: self.name.clone(),
            media: clone_texts(&self.media),
            sticky: self.sticky,
            rtl: self.rtl,
            ord: self.ord,
            font: self.font.clone(),
            size: self.size,
        }
    }
}

/// A card template of a model as the collection stores it.
#[derive(Debug)]
pub struct Tmpl {
    pub name: String,
    pub qfmt: String,
    pub did: Option<usize>,
    pub bafmt: String,
    pub afmt: String,
    pub ord: i64,
    pub bqfmt: String,
}

/// The mathematical value of a [`Tmpl`].
pub struct TmplView {
    pub name: Seq<char>,
    pub qfmt: Seq<char>,
    pub did: Option<usize>,
    pub bafmt: Seq<char>,
    pub afmt: Seq<char>,
    pub ord: i64,
    pub bqfmt: Seq<char>,
}

impl View for Tmpl {
    type V = TmplView;

    open spec fn view(&self) -> TmplView {
        TmplView {
            name: self.name@,
            qfmt: self.qfmt@,
            did: self.did,
            bafmt: self.bafmt@,
            afmt: self.afmt@,
            ord: self.ord,
            bqfmt: self.bqfmt@,
        }
    }
}

impl DeepView for Tmpl {
    type V = TmplView;

    open spec fn deep_view(&self) -> TmplView {
        self@
    }
}

impl Clone for Tmpl {
    fn clone(&self) -> (r: Self)
        ensures
            r@ == self@,
    {
        Tmpl {
            name: self.name.clone(),
            qfmt: self.qfmt.clone(),
            did: self.did,
            bafmt: self.bafmt.clone(),
            afmt: self.afmt.clone(),
            ord: self.ord,
            bqfmt: self.bqfmt.clone(),
        }
    }
}

/// A deck as the collection stores it.
#[derive(Debug)]
pub struct DeckDbEntry {
    pub collapsed: bool,
    pub conf: i64,
    pub desc: String,
    pub deck_db_entry_dyn: i64,
    pub extend_new: i64,
    pub extend_rev: i64,
    pub id: i64,
    pub lrn_today: Vec<i64>,
    pub deck_db_entry_mod: i64,
    pub name: String,
    pub new_today: Vec<i64>,
    pub rev_today: Vec<i64>,
    pub time_today: Vec<i64>,
    pub usn: i64,
}

/// The mathematical value of a [`DeckDbEntry`].
pub struct DeckDbEntryView {
    pub collapsed: bool,
    pub conf: i64,
    pub desc: Seq<char>,
    pub deck_db_entry_dyn: i64,
    pub extend_new: i64,
    pub extend_rev: i64,
    pub id: i64,
    pub lrn_today: Seq<i64>,
    pub deck_db_entry_mod: i64,
    pub name: Seq<char>,
    pub new_today: Seq<i64>,
    pub rev_today: Seq<i64>,
    pub time_today: Seq<i64>,
    pub usn: i64,
}

impl View for DeckDbEntry {
    type V = DeckDbEntryView;

    open spec fn view(&self) -> DeckDbEntryView {
        DeckDbEntryView {
            collapsed: self.collapsed,
            conf: self.conf,
            desc: self.desc@,
            deck_db_entry_dyn: self.deck_db_entry_dyn,
            extend_new: self.extend_new,
            extend_rev: self.extend_rev,
            id: self.id,
            lrn_today: self.lrn_today@,
            deck_db_entry_mod: self.deck_db_entry_mod,
            name: self.name@,
            new_today: self.new_today@,
            rev_today: self.rev_today@,
            time_today: self.time_today@,
            usn: self.usn,
        }
    }
}

/// A model as the collection stores it.
#[derive(Debug)]
pub struct ModelDbEntry {
    pub vers: Vec<i64>,
    pub name: String,
    pub tags: Vec<String>,
    pub did: i64,
    pub usn: i64,
    pub req: Vec<(usize, String, Vec<usize>)>,
    pub flds: Vec<Fld>,
    pub sortf: i64,
    pub tmpls: Vec<Tmpl>,
    pub model_db_entry_mod: i64,
    pub latex_post: String,
    pub model_db_entry_type: i64,
    pub id: String,
    pub css: String,
    pub latex_pre: String,
}

/// The mathematical value of a [`ModelDbEntry`].
pub struct ModelDbEntryView {
    pub vers: Seq<i64>,
    pub name: Seq<char>,
    pub tags: Seq<Seq<char>>,
    pub did: i64,
    pub usn: i64,
    pub req: Seq<(usize, Seq<char>, Seq<usize>)>,
    pub flds: Seq<FldView>,
    pub sortf: i64,
    pub tmpls: Seq<TmplView>,
    pub model_db_entry_mod: i64,
    pub latex_post: Seq<char>,
    pub model_db_entry_type: i64,
    pub id: Seq<char>,
    pub css: Seq<char>,
    pub latex_pre: Seq<char>,
}

impl View for ModelDbEntry {
    type V = ModelDbEntryView;

    open spec fn view(&self) -> ModelDbEntryView {
        ModelDbEntryView {
            vers: self.vers@,
            name: self.name@,
            tags: self.tags.deep_view(),
            did: self.did,
            usn: self.usn,
            req: self.req.deep_view(),
            flds: self.flds.deep_view(),
            sortf: self.sortf,
            tmpls: self.tmpls.deep_view(),
            model_db_entry_mod: self.model_db_entry_mod,
            latex_post: self.latex_post@,
            model_db_entry_type: self.model_db_entry_type,
            id: self.id@,
            css: self.css@,
            latex_pre: self.latex_pre@,
        }
    }
}

} // verus!
