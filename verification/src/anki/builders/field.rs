//! The builder of a model's field.

use crate::anki::db_entries::{Fld, FldView};
use vstd::prelude::*;
use vstd::string::StringExecFns;

verus! {

/// A field to be fed into a model: a name, and the settings that were chosen
/// for it. A setting that was not chosen takes its default when the field is
/// stored: not sticky, left to right, the font Liberation Sans at size 20.
#[derive(Debug)]
pub struct Field {
    name: String,
    sticky: Option<bool>,
    rtl: Option<bool>,
    font: Option<String>,
    size: Option<i64>,
}

/// The mathematical value of a [`Field`].
pub struct FieldView {
    pub name: Seq<char>,
    pub sticky: Option<bool>,
    pub rtl: Option<bool>,
    pub font: Option<Seq<char>>,
    pub size: Option<i64>,
}

impl View for Field {
    type V = FieldView;

    closed spec fn view(&self) -> FieldView {
        FieldView {
            name: self.name@,
            sticky: self.sticky,
            rtl: self.rtl,
            font: self.font.deep_view(),
            size: self.size,
        }
    }
}

impl DeepView for Field {
    type V = FieldView;

    open spec fn deep_view(&self) -> FieldView {
        self@
    }
}

/// The font of a field for which none was chosen.
pub open spec fn default_font() -> Seq<char> {
    "Liberation Sans"@
}

/// The size of a field for which none was chosen.
pub open spec fn default_size() -> i64 {
    20
}

/// The record that stores `field`, before the model numbers it.
pub open spec fn field_entry(field: FieldView) -> FldView {
    FldView {
        name: field.name,
        media: Seq::empty(),
        sticky: match field.sticky {
            Some(sticky) => sticky,
            None => false,
        },
        rtl: match field.rtl {
            Some(rtl) => rtl,
            None => false,
        },
        ord: 0,
        font: match field.font {
            Some(font) => font,
            None => default_font(),
        },
        size: match field.size {
            Some(size) => size,
            None => default_size(),
        },
    }
}

impl Clone for Field {
    fn clone(&self) -> (r: Self)
        ensures
            r@ == self@,
    {
        Field {
            name: self.name.clone(),
            sticky: self.sticky,
            rtl: self.rtl,
            font: match &self.font {
                Some(font) => Some(font.clone()),
                None => None,
            },
            size: self.size,
        }
    }
}

impl Field {
    /// A field called `name`, with no setting chosen.
    pub fn new(name: &str) -> (r: Field)
        ensures
            r@ == (FieldView { name: name@, sticky: None, rtl: None, font: None, size: None }),
    {
        Field { name: String::from_str(name), sticky: None, rtl: None, font: None, size: None }
    }

    /// Chooses the font.
    pub fn font(self, value: &str) -> (r: Field)
        ensures
            r@ == (FieldView { font: Some(value@), ..self@ }),
    {
        let mut field = self;
        field.font = Some(String::from_str(value));
        field
    }

    /// Chooses whether the field is written right to left.
    pub fn rtl(self, value: bool) -> (r: Field)
        ensures
            r@ == (FieldView { rtl: Some(value), ..self@ }),
    {
        let mut field = self;
        field.rtl = Some(value);
        field
    }

    /// Chooses whether the field keeps its content from one note to the next.
    pub fn sticky(self, value: bool) -> (r: Field)
        ensures
            r@ == (FieldView { sticky: Some(value), ..self@ }),
    {
        let mut field = self;
        field.sticky = Some(value);
        field
    }

    /// Chooses the font size.
    pub fn size(self, value: i64) -> (r: Field)
        ensures
            r@ == (FieldView { size: Some(value), ..self@ }),
    {
        let mut field = self;
        field.size = Some(value);
        field
    }

    /// The record that stores the field, with the defaults filled in.
    pub fn into_entry(self) -> (r: Fld)
        ensures
            r@ == field_entry(self@),
    {
        let font = match self.font {
            Some(font) => font,
            None => String::from_str("Liberation Sans"),
        };
        let entry = Fld {
            name: self.name,
            media: Vec::new(),
            sticky: match self.sticky {
                Some(sticky) => sticky,
                None => false,
            },
            rtl: match self.rtl {
                Some(rtl) => rtl,
                None => false,
            },
            ord: 0,
            font,
            size: match self.size {
                Some(size) => size,
                None => 20,
            },
        };
        proof {
            assert(entry.media.deep_view() == Seq::<Seq<char>>::empty());
        }
        entry
    }
}

} // verus!
