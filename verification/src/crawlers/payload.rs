//! Reading lists out of JSON bodies. The parsing is the work of the
//! `serde_json` crate; this module hands the members it is asked for on as
//! plain values.

use vstd::prelude::*;

verus! {

/// What `serde_json` reads out of `body`: the elements of the array that
/// stands under the key `list` of the top-level object, in their order, and of
/// each element the members named by `members`, in the order given. A member
/// is a pair: its value where that is a JSON string, and its value written out
/// as JSON, which is `None` only where the element has no such member.
/// `None` as a whole where `body` is not JSON or has no array under `list`.
pub uninterp spec fn json_table(body: Seq<char>, list: Seq<char>, members: Seq<Seq<char>>) -> Option<
    Seq<Seq<(Option<Seq<char>>, Option<Seq<char>>)>>,
>;

/// Runs `serde_json::from_str` on `body`, takes the array under `list` with
/// `Value::get` and `Value::as_array`, and copies out of each element, for
/// each name in `members`, what `Value::get` finds: `Value::as_str` of it and
/// its `Display` text. The result is the value named [`json_table`].
#[verifier::external_body]
pub(crate) fn read_table(body: &str, list: &str, members: &Vec<String>) -> (r: Option<
    Vec<Vec<(Option<String>, Option<String>)>>,
>)
    ensures
        r.deep_view() == json_table(body@, list@, members.deep_view()),
{
    let value: serde_json::Value = serde_json::from_str(body).ok()?;
    let rows = value.get(list)?.as_array()?;
    Some(rows.iter().map(|row| members.iter().map(|name| {
        let found = row.get(name.as_str());
        (found.and_then(|v| v.as_str()).map(|s| s.to_string()), found.map(|v| v.to_string()))
    }).collect()).collect())
}

} // verus!
