//! Filling in Mustache templates. The rendering is the work of the
//! `ramhorns` crate.

use vstd::prelude::*;

verus! {

/// The text that `ramhorns` renders from the template `source` when the
/// variable `names[i]` stands for `values[i]`, for every `i` that both lists
/// have; of two equal names the later one counts. `None` where `source` is no
/// template that `ramhorns` accepts.
pub uninterp spec fn rendered_template(
    source: Seq<char>,
    names: Seq<Seq<char>>,
    values: Seq<Seq<char>>,
) -> Option<Seq<char>>;

/// Parses `source` with `ramhorns::Template::new` and runs `Template::render`
/// on a map from each name to its value. The result is the value named
/// [`rendered_template`].
#[verifier::external_body]
pub(crate) fn render_template(source: &str, names: &Vec<String>, values: &Vec<String>) -> (r:
    Option<String>)
    ensures
        r.deep_view() == rendered_template(source@, names.deep_view(), values.deep_view()),
{
    let template = ramhorns::Template::new(source).ok()?;
    let content: std::collections::HashMap<&str, &str> =
        names.iter().map(|n| n.as_str()).zip(values.iter().map(|v| v.as_str())).collect();
    Some(template.render(&content))
}

} // verus!
