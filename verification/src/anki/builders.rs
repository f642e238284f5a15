//! Builders for the parts of a model.

pub mod field;
pub mod template;

pub use field::{Field, FieldView};
pub use template::{Template, TemplateView};
