//! The builder of a model's card template.

use crate::anki::db_entries::{Tmpl, TmplView};
use vstd::prelude::*;
use vstd::string::StringExecFns;

verus! {

/// A card template to be fed into a model: a name, and the formats that were
/// chosen for it. A format that was not chosen is empty when the template is
/// stored.
#[derive(Debug)]
pub struct Template {
    name: String,
    qfmt: Option<String>,
    did: Option<usize>,
    bafmt: Option<String>,
    afmt: Option<String>,
    bqfmt: Option<String>,
}

/// The mathematical value of a [`Template`].
pub struct TemplateView {
    pub name: Seq<char>,
    pub qfmt: Option<Seq<char>>,
    pub did: Option<usize>,
    pub bafmt: Option<Seq<char>>,
    pub afmt: Option<Seq<char>>,
    pub bqfmt: Option<Seq<char>>,
}

impl View for Template {
    type V = TemplateView;

    closed spec fn view(&self) -> TemplateView {
        TemplateView {
            name: self.name@,
            qfmt: self.qfmt.deep_view(),
            did: self.did,
            bafmt: self.bafmt.deep_view(),
            afmt: self.afmt.deep_view(),
            bqfmt: self.bqfmt.deep_view(),
        }
    }
}

impl DeepView for Template {
    type V = TemplateView;

    open spec fn deep_view(&self) -> TemplateView {
        self@
    }
}

/// The format that was chosen, or the empty one.
pub open spec fn format_or_empty(format: Option<Seq<char>>) -> Seq<char> {
    match format {
        Some(text) => text,
        None => Seq::empty(),
    }
}

/// The record that stores `template`, before the model numbers it.
pub open spec fn template_entry(template: TemplateView) -> TmplView {
    TmplView {
        name: template.name,
        qfmt: format_or_empty(template.qfmt),
        did: template.did,
        bafmt: format_or_empty(template.bafmt),
        afmt: format_or_empty(template.afmt),
        ord: 0,
        bqfmt: format_or_empty(template.bqfmt),
    }
}

fn clone_format(format: &Option<String>) -> (r: Option<String>)
    ensures
        r.deep_view() == format.deep_view(),
{
    match format {
        Some(text) => Some(text.clone()),
        None => None,
    }
}

fn unwrap_format(format: Option<String>) -> (r: String)
    ensures
        r@ == format_or_empty(format.deep_view()),
{
    match format {
        Some(text) => text,
        None => String::new(),
    }
}

impl Clone for Template {
    fn clone(&self) -> (r: Self)
        ensures
            r@ == self@,
    {
        Template {
            name: self.name.clone(),
            qfmt: clone_format(&self.qfmt),
            did: self.did,
            bafmt: clone_format(&self.bafmt),
            afmt: clone_format(&self.afmt),
            bqfmt: clone_format(&self.bqfmt),
        }
    }
}

impl Template {
    /// A template called `name`, with no format chosen.
    pub fn new(name: &str) -> (r: Template)
        ensures
            r@ == (TemplateView {
                name: name@,
                qfmt: None,
                did: None,
                bafmt: None,
                afmt: None,
                bqfmt: None,
            }),
    {
        Template {
            name: String::from_str(name),
            qfmt: None,
            did: None,
            bafmt: None,
            afmt: None,
            bqfmt: None,
        }
    }

    /// Chooses the question format.
    pub fn qfmt(self, qfmt: &str) -> (r: Template)
        ensures
            r@ == (TemplateView { qfmt: Some(qfmt@), ..self@ }),
    {
        let mut template = self;
        template.qfmt = Some(String::from_str(qfmt));
        template
    }

    /// Chooses the deck that the cards of this template go to.
    pub fn did(self, did: usize) -> (r: Template)
        ensures
            r@ == (TemplateView { did: Some(did), ..self@ }),
    {
        let mut template = self;
        template.did = Some(did);
        template
    }

    /// Chooses the answer format shown in the browser.
    pub fn bafmt(self, bafmt: &str) -> (r: Template)
        ensures
            r@ == (TemplateView { bafmt: Some(bafmt@), ..self@ }),
    {
        let mut template = self;
        template.bafmt = Some(String::from_str(bafmt));
        template
    }

    /// Chooses the answer format.
    pub fn afmt(self, afmt: &str) -> (r: Template)
        ensures
            r@ == (TemplateView { afmt: Some(afmt@), ..self@ }),
    {
        let mut template = self;
        template.afmt = Some(String::from_str(afmt));
        template
    }

    /// Chooses the question format shown in the browser.
    pub fn bqfmt(self, bqfmt: &str) -> (r: Template)
        ensures
            r@ == (TemplateView { bqfmt: Some(bqfmt@), ..self@ }),
    {
        let mut template = self;
        template.bqfmt = Some(String::from_str(bqfmt));
        template
    }

    /// The record that stores the template, with empty formats filled in.
    pub fn into_entry(self) -> (r: Tmpl)
        ensures
            r@ == template_entry(self@),
    {
        Tmpl {
            name: self.name,
            qfmt: unwrap_format(self.qfmt),
            did: self.did,
            bafmt: unwrap_format(self.bafmt),
            afmt: unwrap_format(self.afmt),
            ord: 0,
            bqfmt: unwrap_format(self.bqfmt),
        }
    }
}

} // verus!
