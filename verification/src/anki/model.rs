//! Models: the fields and the card templates of a kind of note, and the rule
//! that tells which fields a card needs.

use crate::anki::builders::field::{field_entry, Field, FieldView};
use crate::anki::builders::template::{template_entry, Template, TemplateView};
use crate::anki::db_entries::{Fld, FldView, ModelDbEntry, ModelDbEntryView, Tmpl, TmplView};
use crate::anki::error::{Error, ErrorView};
use crate::anki::rendering::{render_template, rendered_template};
use crate::patterns::{is_match, regex_is_match};
use crate::text::{contains, format_i64, has_substring, signed_decimal};
use vstd::prelude::*;
use vstd::string::StringExecFns;

verus! {

/// Whether the cards of a model have a front and a back, or hide parts of
/// one text.
#[derive(Debug, Clone, Copy, PartialEq, Eq, Structural)]
pub enum ModelType {
    FrontBack,
    Cloze,
}

/// A model.
#[derive(Debug)]
pub struct Model {
    pub id: i64,
    name: String,
    fields: Vec<Fld>,
    templates: Vec<Tmpl>,
    css: String,
    model_type: ModelType,
    latex_pre: String,
    latex_post: String,
    sort_field_index: i64,
}

/// The mathematical value of a [`Model`].
pub struct ModelView {
    pub id: i64,
    pub name: Seq<char>,
    pub fields: Seq<FldView>,
    pub templates: Seq<TmplView>,
    pub css: Seq<char>,
    pub model_type: ModelType,
    pub latex_pre: Seq<char>,
    pub latex_post: Seq<char>,
    pub sort_field_index: i64,
}

impl View for Model {
    type V = ModelView;

    closed spec fn view(&self) -> ModelView {
        ModelView {
            id: self.id,
            name: self.name@,
            fields: self.fields.deep_view(),
            templates: self.templates.deep_view(),
            css: self.css@,
            model_type: self.model_type,
            latex_pre: self.latex_pre@,
            latex_post: self.latex_post@,
            sort_field_index: self.sort_field_index,
        }
    }
}

impl DeepView for Model {
    type V = ModelView;

    open spec fn deep_view(&self) -> ModelView {
        self@
    }
}

/// The LaTeX preamble of a model for which none was chosen.
pub open spec fn default_latex_pre() -> Seq<char> {
    "\\documentclass[12pt]{article}\n\\special{papersize=3in,5in}\n\\usepackage[utf8]{inputenc}\n\\usepackage{amssymb,amsmath}\n\\pagestyle{empty}\n\\setlength{\\parindent}{0in}\n\\begin{document}\n"@
}

/// The LaTeX ending of a model for which none was chosen.
pub open spec fn default_latex_post() -> Seq<char> {
    "\\end{document}"@
}

/// The records of a list of fields.
pub open spec fn field_entries(fields: Seq<FieldView>) -> Seq<FldView> {
    Seq::new(fields.len(), |i: int| field_entry(fields[i]))
}

/// The records of a list of templates.
pub open spec fn template_entries(templates: Seq<TemplateView>) -> Seq<TmplView> {
    Seq::new(templates.len(), |i: int| template_entry(templates[i]))
}

/// The text that was chosen, or `default`.
pub open spec fn text_or(chosen: Option<Seq<char>>, default: Seq<char>) -> Seq<char> {
    match chosen {
        Some(text) => text,
        None => default,
    }
}

/// The model that the given parts and options make. An option that is not
/// given takes its default: no style sheet, cards with front and back, the
/// default LaTeX frame, and the first field to sort by.
pub open spec fn model_of(
    id: i64,
    name: Seq<char>,
    fields: Seq<FieldView>,
    templates: Seq<TemplateView>,
    css: Option<Seq<char>>,
    model_type: Option<ModelType>,
    latex_pre: Option<Seq<char>>,
    latex_post: Option<Seq<char>>,
    sort_field_index: Option<i64>,
) -> ModelView {
    ModelView {
        id,
        name,
        fields: field_entries(fields),
        templates: template_entries(templates),
        css: text_or(css, Seq::empty()),
        model_type: match model_type {
            Some(kind) => kind,
            None => ModelType::FrontBack,
        },
        latex_pre: text_or(latex_pre, default_latex_pre()),
        latex_post: text_or(latex_post, default_latex_post()),
        sort_field_index: match sort_field_index {
            Some(index) => index,
            None => 0,
        },
    }
}

/// The text that stands for a field's content while a template is probed.
pub open spec fn sentinel() -> Seq<char> {
    "SeNtInEl"@
}

/// The names of the fields, in their order.
pub open spec fn field_names(fields: Seq<FldView>) -> Seq<Seq<char>> {
    Seq::new(fields.len(), |i: int| fields[i].name)
}

/// The mark of each field: its name followed by the sentinel.
pub open spec fn field_marks(names: Seq<Seq<char>>) -> Seq<Seq<char>> {
    Seq::new(names.len(), |i: int| names[i] + sentinel())
}

/// The pattern that finds, in a rendered question, the mark of another field
/// than the one whose mark is `mark`.
pub open spec fn other_mark_pattern(mark: Seq<char>) -> Seq<char> {
    "(?!"@ + mark + "\\b)\\b(\\w)*"@ + sentinel() + "+"@
}

/// Among the first `n` fields, those beside whose mark the rendered question
/// `text` shows the mark of no other field. `None` where a search failed.
pub open spec fn lone_fields(marks: Seq<Seq<char>>, text: Seq<char>, n: int) -> Option<Seq<usize>>
    decreases n,
{
    if n <= 0 {
        Some(Seq::empty())
    } else {
        match lone_fields(marks, text, n - 1) {
            None => None,
            Some(before) => match regex_is_match(other_mark_pattern(marks[n - 1]), text) {
                None => None,
                Some(other) => if other {
                    Some(before)
                } else {
                    Some(before.push((n - 1) as usize))
                },
            },
        }
    }
}

/// Among the first `n` fields, those whose mark the rendered question `text`
/// shows.
pub open spec fn present_fields(marks: Seq<Seq<char>>, text: Seq<char>, n: int) -> Seq<usize>
    decreases n,
{
    if n <= 0 {
        Seq::empty()
    } else {
        let before = present_fields(marks, text, n - 1);
        if has_substring(text, marks[n - 1]) {
            before.push((n - 1) as usize)
        } else {
            before
        }
    }
}

/// The fields that a card of `template` needs, for a model whose fields are
/// called `names`. The question format is rendered with every field standing
/// for its mark. The fields whose absence empties the question are needed
/// all together (`all`); where there is none, any one of the fields that
/// show in the question will do (`any`); where none shows either, the
/// template is refused.
pub open spec fn template_req(names: Seq<Seq<char>>, template: TmplView) -> Result<
    (Seq<char>, Seq<usize>),
    ErrorView,
> {
    let marks = field_marks(names);
    match rendered_template(template.qfmt, names, marks) {
        None => Err(ErrorView::Template),
        Some(text) => match lone_fields(marks, text, marks.len() as int) {
            None => Err(ErrorView::Regex),
            Some(lone) => if lone.len() > 0 {
                Ok(("all"@, lone))
            } else {
                let present = present_fields(marks, text, marks.len() as int);
                if present.len() > 0 {
                    Ok(("any"@, present))
                } else {
                    Err(ErrorView::TemplateFormat { template: template.name })
                }
            },
        },
    }
}

/// The needs of the first `n` templates of a model, each with the number of
/// its template; the error of the first template that has one.
pub open spec fn model_req(model: ModelView, n: int) -> Result<
    Seq<(usize, Seq<char>, Seq<usize>)>,
    ErrorView,
>
    decreases n,
{
    if n <= 0 {
        Ok(Seq::empty())
    } else {
        match model_req(model, n - 1) {
            Err(e) => Err(e),
            Ok(before) => match template_req(field_names(model.fields), model.templates[n - 1]) {
                Err(e) => Err(e),
                Ok(need) => Ok(before.push(((n - 1) as usize, need.0, need.1))),
            },
        }
    }
}

/// `entries` with each entry numbered by its place.
pub open spec fn numbered_fields(entries: Seq<FldView>) -> Seq<FldView> {
    Seq::new(entries.len(), |i: int| FldView { ord: place(i), ..entries[i] })
}

/// `entries` with each entry numbered by its place.
pub open spec fn numbered_templates(entries: Seq<TmplView>) -> Seq<TmplView> {
    Seq::new(entries.len(), |i: int| TmplView { ord: place(i), ..entries[i] })
}

/// The number that is stored for place `i` of a list.
pub open spec fn place(i: int) -> i64 {
    if i <= i64::MAX {
        i as i64
    } else {
        i64::MAX
    }
}

/// The number that is stored for a kind of model.
pub open spec fn type_code(kind: ModelType) -> i64 {
    match kind {
        ModelType::FrontBack => 0i64,
        ModelType::Cloze => 1i64,
    }
}

/// The record that stores `model` in the deck `deck_id` at the time
/// `timestamp`, given the needs `req` of its templates.
pub open spec fn model_entry(
    model: ModelView,
    req: Seq<(usize, Seq<char>, Seq<usize>)>,
    timestamp: i64,
    deck_id: i64,
) -> ModelDbEntryView {
    ModelDbEntryView {
        vers: Seq::empty(),
        name: model.name,
        tags: Seq::empty(),
        did: deck_id,
        usn: -1i64,
        req,
        flds: numbered_fields(model.fields),
        sortf: model.sort_field_index,
        tmpls: numbered_templates(model.templates),
        model_db_entry_mod: timestamp,
        latex_post: model.latex_post,
        model_db_entry_type: type_code(model.model_type),
        id: signed_decimal(model.id as int),
        css: model.css,
        latex_pre: model.latex_pre,
    }
}

/// The views of a result that holds the needs of templates.
pub open spec fn req_outcome(r: Result<Vec<(usize, String, Vec<usize>)>, Error>) -> Result<
    Seq<(usize, Seq<char>, Seq<usize>)>,
    ErrorView,
> {
    match r {
        Ok(req) => Ok(req.deep_view()),
        Err(e) => Err(e@),
    }
}

/// The views of a result that holds the record of a model.
pub open spec fn entry_outcome(r: Result<ModelDbEntry, Error>) -> Result<
    ModelDbEntryView,
    ErrorView,
> {
    match r {
        Ok(entry) => Ok(entry@),
        Err(e) => Err(e@),
    }
}

/// The place of a list as the number that is stored for it.
pub fn place_number(i: usize) -> (r: i64)
    ensures
        r == place(i as int),
{
    if i as u64 <= 0x7fff_ffff_ffff_ffffu64 {
        i as i64
    } else {
        i64::MAX
    }
}

/// Once a search has failed among the first fields, it has failed among all.
pub proof fn lemma_lone_fields_failed(marks: Seq<Seq<char>>, text: Seq<char>, n: int, m: int)
    requires
        0 <= n <= m,
        lone_fields(marks, text, n) is None,
    ensures
        lone_fields(marks, text, m) is None,
    decreases m - n,
{
    if n < m {
        lemma_lone_fields_failed(marks, text, n, m - 1);
    }
}

/// Once a template among the first has failed, the model fails alike.
pub proof fn lemma_model_req_failed(model: ModelView, n: int, m: int)
    requires
        0 <= n <= m,
        model_req(model, n) is Err,
    ensures
        model_req(model, m) == model_req(model, n),
    decreases m - n,
{
    if n < m {
        lemma_model_req_failed(model, n, m - 1);
    }
}

fn clone_fields(fields: &Vec<Fld>) -> (r: Vec<Fld>)
    ensures
        r.deep_view() == fields.deep_view(),
{
    let mut out: Vec<Fld> = Vec::new();
    let mut i: usize = 0;
    while i < fields.len()
        invariant
            i <= fields.len(),
            out.deep_view() == fields.deep_view().take(i as int),
        decreases fields.len() - i,
    {
        let ghost before = out.deep_view();
        out.push(fields[i].clone());
        proof {
            assert(out.deep_view() == before.push(fields[i as int]@));
            assert(fields.deep_view().take(i + 1) == before.push(fields[i as int]@));
        }
        i = i + 1;
    }
    proof {
        assert(fields.deep_view().take(fields.len() as int) == fields.deep_view());
    }
    out
}

fn clone_templates(templates: &Vec<Tmpl>) -> (r: Vec<Tmpl>)
    ensures
        r.deep_view() == templates.deep_view(),
{
    let mut out: Vec<Tmpl> = Vec::new();
    let mut i: usize = 0;
    while i < templates.len()
        invariant
            i <= templates.len(),
            out.deep_view() == templates.deep_view().take(i as int),
        decreases templates.len() - i,
    {
        let ghost before = out.deep_view();
        out.push(templates[i].clone());
        proof {
            assert(out.deep_view() == before.push(templates[i as int]@));
            assert(templates.deep_view().take(i + 1) == before.push(templates[i as int]@));
        }
        i = i + 1;
    }
    proof {
        assert(templates.deep_view().take(templates.len() as int) == templates.deep_view());
    }
    out
}

impl Clone for Model {
    fn clone(&self) -> (r: Self)
        ensures
            r@ == self@,
    {
        Model {
            id: self.id,
            name: self.name.clone(),
            fields: clone_fields(&self.fields),
            templates: clone_templates(&self.templates),
            css: self.css.clone(),
            model_type: self.model_type,
            latex_pre: self.latex_pre.clone(),
            latex_post: self.latex_post.clone(),
            sort_field_index: self.sort_field_index,
        }
    }
}

fn entries_of_fields(fields: &Vec<Field>) -> (r: Vec<Fld>)
    ensures
        r.deep_view() == field_entries(fields.deep_view()),
{
    let mut out: Vec<Fld> = Vec::new();
    let mut i: usize = 0;
    while i < fields.len()
        invariant
            i <= fields.len(),
            out.deep_view() == field_entries(fields.deep_view()).take(i as int),
        decreases fields.len() - i,
    {
        let ghost before = out.deep_view();
        let entry = fields[i].clone().into_entry();
        out.push(entry);
        proof {
            assert(out.deep_view() == before.push(entry@));
            assert(field_entries(fields.deep_view()).take(i + 1) == before.push(entry@));
        }
        i = i + 1;
    }
    proof {
        assert(field_entries(fields.deep_view()).take(fields.len() as int) == field_entries(
            fields.deep_view(),
        ));
    }
    out
}

fn entries_of_templates(templates: &Vec<Template>) -> (r: Vec<Tmpl>)
    ensures
        r.deep_view() == template_entries(templates.deep_view()),
{
    let mut out: Vec<Tmpl> = Vec::new();
    let mut i: usize = 0;
    while i < templates.len()
        invariant
            i <= templates.len(),
            out.deep_view() == template_entries(templates.deep_view()).take(i as int),
        decreases templates.len() - i,
    {
        let ghost before = out.deep_view();
        let entry = templates[i].clone().into_entry();
        out.push(entry);
        proof {
            assert(out.deep_view() == before.push(entry@));
            assert(template_entries(templates.deep_view()).take(i + 1) == before.push(entry@));
        }
        i = i + 1;
    }
    proof {
        assert(template_entries(templates.deep_view()).take(templates.len() as int)
            == template_entries(templates.deep_view()));
    }
    out
}

fn number_fields(fields: &Vec<Fld>) -> (r: Vec<Fld>)
    ensures
        r.deep_view() == numbered_fields(fields.deep_view()),
{
    let mut out: Vec<Fld> = Vec::new();
    let mut i: usize = 0;
    while i < fields.len()
        invariant
            i <= fields.len(),
            out.deep_view() == numbered_fields(fields.deep_view()).take(i as int),
        decreases fields.len() - i,
    {
        let ghost before = out.deep_view();
        let mut entry = fields[i].clone();
        entry.ord = place_number(i);
        out.push(entry);
        proof {
            assert(out.deep_view() == before.push(entry@));
            assert(numbered_fields(fields.deep_view()).take(i + 1) == before.push(entry@));
        }
        i = i + 1;
    }
    proof {
        assert(numbered_fields(fields.deep_view()).take(fields.len() as int) == numbered_fields(
            fields.deep_view(),
        ));
    }
    out
}

fn number_templates(templates: &Vec<Tmpl>) -> (r: Vec<Tmpl>)
    ensures
        r.deep_view() == numbered_templates(templates.deep_view()),
{
    let mut out: Vec<Tmpl> = Vec::new();
    let mut i: usize = 0;
    while i < templates.len()
        invariant
            i <= templates.len(),
            out.deep_view() == numbered_templates(templates.deep_view()).take(i as int),
        decreases templates.len() - i,
    {
        let ghost before = out.deep_view();
        let mut entry = templates[i].clone();
        entry.ord = place_number(i);
        out.push(entry);
        proof {
            assert(out.deep_view() == before.push(entry@));
            assert(numbered_templates(templates.deep_view()).take(i + 1) == before.push(entry@));
        }
        i = i + 1;
    }
    proof {
        assert(numbered_templates(templates.deep_view()).take(templates.len() as int)
            == numbered_templates(templates.deep_view()));
    }
    out
}

fn option_text(chosen: Option<&str>, default: &str) -> (r: String)
    ensures
        r@ == text_or(chosen.deep_view(), default@),
{
    match chosen {
        Some(text) => String::from_str(text),
        None => String::from_str(default),
    }
}

/// Among the first fields, those beside whose mark `text` shows no other.
pub fn lone_fields_of(marks: &Vec<String>, text: &str) -> (r: Option<Vec<usize>>)
    ensures
        r.deep_view() == lone_fields(marks.deep_view(), text@, marks.len() as int),
{
    let mut lone: Vec<usize> = Vec::new();
    let mut i: usize = 0;
    proof {
        assert(lone.deep_view() == Seq::<usize>::empty());
    }
    while i < marks.len()
        invariant
            i <= marks.len(),
            lone_fields(marks.deep_view(), text@, i as int) == Some(lone.deep_view()),
        decreases marks.len() - i,
    {
        let pattern = String::from_str("(?!").concat(marks[i].as_str()).concat(
            "\\b)\\b(\\w)*",
        ).concat("SeNtInEl").concat("+");
        proof {
            assert(pattern@ == other_mark_pattern(marks.deep_view()[i as int]));
        }
        match is_match(pattern.as_str(), text) {
            None => {
                proof {
                    lemma_lone_fields_failed(
                        marks.deep_view(),
                        text@,
                        i + 1,
                        marks.len() as int,
                    );
                }
                return None;
            },
            Some(other) => {
                if !other {
                    let ghost before = lone.deep_view();
                    lone.push(i);
                    proof {
                        assert(lone.deep_view() == before.push(i));
                    }
                }
            },
        }
        i = i + 1;
    }
    Some(lone)
}

/// The fields whose mark `text` shows.
pub fn present_fields_of(marks: &Vec<String>, text: &str) -> (r: Vec<usize>)
    ensures
        r.deep_view() == present_fields(marks.deep_view(), text@, marks.len() as int),
{
    let mut present: Vec<usize> = Vec::new();
    let mut i: usize = 0;
    proof {
        assert(present.deep_view() == Seq::<usize>::empty());
    }
    while i < marks.len()
        invariant
            i <= marks.len(),
            present.deep_view() == present_fields(marks.deep_view(), text@, i as int),
        decreases marks.len() - i,
    {
        if contains(text, marks[i].as_str()) {
            let ghost before = present.deep_view();
            present.push(i);
            proof {
                assert(present.deep_view() == before.push(i));
            }
        }
        i = i + 1;
    }
    present
}

/// The fields that a card needs, read off its rendered question.
pub fn needs_from_rendering(rendered: &Option<String>, marks: &Vec<String>, template_name: &str) -> (r:
    Result<(String, Vec<usize>), Error>)
    ensures
        match r {
            Ok(need) => Ok::<(Seq<char>, Seq<usize>), ErrorView>(need.deep_view()),
            Err(e) => Err(e@),
        } == match rendered.deep_view() {
            None => Err(ErrorView::Template),
            Some(text) => match lone_fields(marks.deep_view(), text, marks.len() as int) {
                None => Err(ErrorView::Regex),
                Some(lone) => if lone.len() > 0 {
                    Ok(("all"@, lone))
                } else {
                    let present = present_fields(marks.deep_view(), text, marks.len() as int);
                    if present.len() > 0 {
                        Ok(("any"@, present))
                    } else {
                        Err(ErrorView::TemplateFormat { template: template_name@ })
                    }
                },
            },
        },
{
    match rendered {
        None => Err(Error::Template),
        Some(text) => match lone_fields_of(marks, text.as_str()) {
            None => Err(Error::Regex),
            Some(lone) => {
                if lone.len() > 0 {
                    Ok((String::from_str("all"), lone))
                } else {
                    let present = present_fields_of(marks, text.as_str());
                    if present.len() > 0 {
                        Ok((String::from_str("any"), present))
                    } else {
                        Err(Error::TemplateFormat { template: String::from_str(template_name) })
                    }
                }
            },
        },
    }
}

impl Model {
    /// A model with the default options.
    pub fn new(id: i64, name: &str, fields: Vec<Field>, templates: Vec<Template>) -> (r: Model)
        ensures
            r@ == model_of(
                id,
                name@,
                fields.deep_view(),
                templates.deep_view(),
                None,
                None,
                None,
                None,
                None,
            ),
    {
        Model::new_with_options(id, name, fields, templates, None, None, None, None, None)
    }

    /// A model with the options that are given.
    pub fn new_with_options(
        id: i64,
        name: &str,
        fields: Vec<Field>,
        templates: Vec<Template>,
        css: Option<&str>,
        model_type: Option<ModelType>,
        latex_pre: Option<&str>,
        latex_post: Option<&str>,
        sort_field_index: Option<i64>,
    ) -> (r: Model)
        ensures
            r@ == model_of(
                id,
                name@,
                fields.deep_view(),
                templates.deep_view(),
                css.deep_view(),
                model_type,
                latex_pre.deep_view(),
                latex_post.deep_view(),
                sort_field_index,
            ),
    {
        Model {
            id,
            name: String::from_str(name),
            fields: entries_of_fields(&fields),
            templates: entries_of_templates(&templates),
            css: match css {
                Some(text) => String::from_str(text),
                None => String::new(),
            },
            model_type: match model_type {
                Some(kind) => kind,
                None => ModelType::FrontBack,
            },
            latex_pre: option_text(
                latex_pre,
                "\\documentclass[12pt]{article}\n\\special{papersize=3in,5in}\n\\usepackage[utf8]{inputenc}\n\\usepackage{amssymb,amsmath}\n\\pagestyle{empty}\n\\setlength{\\parindent}{0in}\n\\begin{document}\n",
            ),
            latex_post: option_text(latex_post, "\\end{document}"),
            sort_field_index: match sort_field_index {
                Some(index) => index,
                None => 0,
            },
        }
    }

    /// Chooses the style sheet.
    pub fn css(self, css: &str) -> (r: Model)
        ensures
            r@ == (ModelView { css: css@, ..self@ }),
    {
        let mut model = self;
        model.css = String::from_str(css);
        model
    }

    /// Chooses the kind of the model.
    pub fn model_type(self, model_type: ModelType) -> (r: Model)
        ensures
            r@ == (ModelView { model_type, ..self@ }),
    {
        let mut model = self;
        model.model_type = model_type;
        model
    }

    /// Chooses the field that notes are sorted by.
    pub fn sort_field_index(self, sort_field_index: i64) -> (r: Model)
        ensures
            r@ == (ModelView { sort_field_index, ..self@ }),
    {
        let mut model = self;
        model.sort_field_index = sort_field_index;
        model
    }

    /// Chooses the LaTeX preamble.
    pub fn latex_pre(self, latex_pre: &str) -> (r: Model)
        ensures
            r@ == (ModelView { latex_pre: latex_pre@, ..self@ }),
    {
        let mut model = self;
        model.latex_pre = String::from_str(latex_pre);
        model
    }

    /// Chooses the LaTeX ending.
    pub fn latex_post(self, latex_post: &str) -> (r: Model)
        ensures
            r@ == (ModelView { latex_post: latex_post@, ..self@ }),
    {
        let mut model = self;
        model.latex_post = String::from_str(latex_post);
        model
    }

    /// Adds a field after those the model has.
    pub fn with_field(self, field: Field) -> (r: Model)
        ensures
            r@ == (ModelView { fields: self@.fields.push(field_entry(field@)), ..self@ }),
    {
        let mut model = self;
        let ghost before = model.fields.deep_view();
        let entry = field.into_entry();
        model.fields.push(entry);
        proof {
            assert(model.fields.deep_view() == before.push(entry@));
        }
        model
    }

    /// Adds a template after those the model has.
    pub fn with_template(self, template: Template) -> (r: Model)
        ensures
            r@ == (ModelView { templates: self@.templates.push(template_entry(template@)), ..self@ }),
    {
        let mut model = self;
        let ghost before = model.templates.deep_view();
        let entry = template.into_entry();
        model.templates.push(entry);
        proof {
            assert(model.templates.deep_view() == before.push(entry@));
        }
        model
    }

    /// The fields of the model.
    pub fn fields(&self) -> (r: Vec<Fld>)
        ensures
            r.deep_view() == self@.fields,
    {
        clone_fields(&self.fields)
    }

    /// The templates of the model.
    pub fn templates(&self) -> (r: Vec<Tmpl>)
        ensures
            r.deep_view() == self@.templates,
    {
        clone_templates(&self.templates)
    }

    /// The identifier of the model.
    pub fn get_id(&self) -> (r: i64)
        ensures
            r == self@.id,
    {
        self.id
    }

    /// The kind of the model.
    pub fn get_model_type(&self) -> (r: ModelType)
        ensures
            r == self@.model_type,
    {
        self.model_type
    }

    fn names(&self) -> (r: Vec<String>)
        ensures
            r.deep_view() == field_names(self@.fields),
    {
        let mut names: Vec<String> = Vec::new();
        let mut i: usize = 0;
        while i < self.fields.len()
            invariant
                i <= self.fields.len(),
                names.deep_view() == field_names(self@.fields).take(i as int),
            decreases self.fields.len() - i,
        {
            let ghost before = names.deep_view();
            names.push(self.fields[i].name.clone());
            proof {
                assert(names.deep_view() == before.push(self.fields[i as int].name@));
                assert(field_names(self@.fields).take(i + 1) == before.push(
                    self.fields[i as int].name@,
                ));
            }
            i = i + 1;
        }
        proof {
            assert(field_names(self@.fields).take(self.fields.len() as int) == field_names(
                self@.fields,
            ));
        }
        names
    }

    /// For each template, the fields that its card needs: the number of the
    /// template, `all` or `any`, and the numbers of the fields.
    pub fn req(&self) -> (r: Result<Vec<(usize, String, Vec<usize>)>, Error>)
        ensures
            req_outcome(r) == model_req(self@, self@.templates.len() as int),
    {
        let names = self.names();
        let marks = marks_of(&names);
        let mut req: Vec<(usize, String, Vec<usize>)> = Vec::new();
        let mut t: usize = 0;
        proof {
            assert(req.deep_view() == Seq::<(usize, Seq<char>, Seq<usize>)>::empty());
        }
        while t < self.templates.len()
            invariant
                t <= self.templates.len(),
                names.deep_view() == field_names(self@.fields),
                marks.deep_view() == field_marks(names.deep_view()),
                model_req(self@, t as int) == Ok::<
                    Seq<(usize, Seq<char>, Seq<usize>)>,
                    ErrorView,
                >(req.deep_view()),
            decreases self.templates.len() - t,
        {
            let template = &self.templates[t];
            proof {
                assert(self@.templates[t as int] == template@);
            }
            let rendered = render_template(template.qfmt.as_str(), &names, &marks);
            match needs_from_rendering(&rendered, &marks, template.name.as_str()) {
                Err(e) => {
                    proof {
                        lemma_model_req_failed(self@, t + 1, self@.templates.len() as int);
                    }
                    return Err(e);
                },
                Ok(need) => {
                    let ghost before = req.deep_view();
                    let (kind, ords) = need;
                    req.push((t, kind, ords));
                    proof {
                        assert(req.deep_view() == before.push((t, kind@, ords.deep_view())));
                    }
                },
            }
            t = t + 1;
        }
        Ok(req)
    }

    /// The record that stores the model in the deck `deck_id` at the time
    /// `timestamp`.
    pub fn to_model_db_entry(&self, timestamp: i64, deck_id: i64) -> (r: Result<
        ModelDbEntry,
        Error,
    >)
        ensures
            entry_outcome(r) == match model_req(self@, self@.templates.len() as int) {
                Ok(req) => Ok(model_entry(self@, req, timestamp, deck_id)),
                Err(e) => Err(e),
            },
    {
        match self.req() {
            Err(e) => Err(e),
            Ok(req) => {
                let entry = ModelDbEntry {
                    vers: Vec::new(),
                    name: self.name.clone(),
                    tags: Vec::new(),
                    did: deck_id,
                    usn: -1,
                    req,
                    flds: number_fields(&self.fields),
                    sortf: self.sort_field_index,
                    tmpls: number_templates(&self.templates),
                    model_db_entry_mod: timestamp,
                    latex_post: self.latex_post.clone(),
                    model_db_entry_type: match self.model_type {
                        ModelType::FrontBack => 0,
                        ModelType::Cloze => 1,
                    },
                    id: format_i64(self.id),
                    css: self.css.clone(),
                    latex_pre: self.latex_pre.clone(),
                };
                proof {
                    assert(entry.vers@ == Seq::<i64>::empty());
                    assert(entry.tags.deep_view() == Seq::<Seq<char>>::empty());
                }
                Ok(entry)
            },
        }
    }
}

/// The mark of each name.
pub fn marks_of(names: &Vec<String>) -> (r: Vec<String>)
    ensures
        r.deep_view() == field_marks(names.deep_view()),
{
    let mut marks: Vec<String> = Vec::new();
    let mut i: usize = 0;
    while i < names.len()
        invariant
            i <= names.len(),
            marks.deep_view() == field_marks(names.deep_view()).take(i as int),
        decreases names.len() - i,
    {
        let ghost before = marks.deep_view();
        let mark = names[i].clone().concat("SeNtInEl");
        marks.push(mark);
        proof {
            assert(marks.deep_view() == before.push(mark@));
            assert(field_marks(names.deep_view()).take(i + 1) == before.push(mark@));
        }
        i = i + 1;
    }
    proof {
        assert(field_marks(names.deep_view()).take(names.len() as int) == field_marks(
            names.deep_view(),
        ));
    }
    marks
}

} // verus!
