//! Why a note or a model is refused.

use vstd::prelude::*;

verus! {

/// The reasons for which a note or a model is refused.
#[derive(Debug)]
pub enum Error {
    /// A note has another number of fields than its model.
    ModelFieldCountMismatch { model_len: usize, card_len: usize },
    /// A tag holds a space.
    TagContainsWhitespace,
    /// No field decides whether the card of this template is empty.
    TemplateFormat { template: String },
    /// A question format is no template.
    Template,
    /// A pattern could not be compiled or its search gave up.
    Regex,
}

/// The mathematical value of an [`Error`].
pub enum ErrorView {
    ModelFieldCountMismatch { model_len: usize, card_len: usize },
    TagContainsWhitespace,
    TemplateFormat { template: Seq<char> },
    Template,
    Regex,
}

impl View for Error {
    type V = ErrorView;

    open spec fn view(&self) -> ErrorView {
        match self {
            Error::ModelFieldCountMismatch { model_len, card_len } => {
                ErrorView::ModelFieldCountMismatch { model_len: *model_len, card_len: *card_len }
            },
            Error::TagContainsWhitespace => ErrorView::TagContainsWhitespace,
            Error::TemplateFormat { template } => ErrorView::TemplateFormat { template: template@ },
            Error::Template => ErrorView::Template,
            Error::Regex => ErrorView::Regex,
        }
    }
}

} // verus!
