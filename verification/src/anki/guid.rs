//! Identifiers of notes: a 64-bit number written in base 91.

use std::collections::hash_map::DefaultHasher;
use std::hash::Hasher;
use vstd::prelude::*;
use vstd::string::StringExecFns;

verus! {

/// The 91 digits, in the order of their values.
pub open spec fn base91_table() -> Seq<char> {
    "abcdefghijklmnopqrstuvwxyzABCDEFGHIJKLMNOPQRSTUVWXYZ0123456789!#$%&()*+,-./:;<=>?@[]^_`{|}~"@
}

/// `n` written in base 91, most significant digit first; zero is written
/// with no digit at all.
pub open spec fn base91(n: nat) -> Seq<char>
    decreases n,
{
    if n == 0 {
        Seq::empty()
    } else {
        base91(n / 91).push(base91_table()[(n % 91) as int])
    }
}

/// Whether `guid` is the base 91 writing of some 64-bit number.
pub open spec fn is_generated_guid(guid: Seq<char>) -> bool {
    exists|n: u64| guid == base91(n as nat)
}

/// Writes `n` in base 91.
pub fn guid_from_hash(n: u64) -> (r: String)
    ensures
        r@ == base91(n as nat),
        is_generated_guid(r@),
{
    let r = write_base91(n);
    proof {
        assert(r@ == base91(n as nat));
    }
    r
}

fn write_base91(n: u64) -> (r: String)
    ensures
        r@ == base91(n as nat),
    decreases n,
{
    if n == 0 {
        String::new()
    } else {
        let table =
            "abcdefghijklmnopqrstuvwxyzABCDEFGHIJKLMNOPQRSTUVWXYZ0123456789!#$%&()*+,-./:;<=>?@[]^_`{|}~";
        proof {
            reveal_strlit(
                "abcdefghijklmnopqrstuvwxyzABCDEFGHIJKLMNOPQRSTUVWXYZ0123456789!#$%&()*+,-./:;<=>?@[]^_`{|}~",
            );
        }
        let d: usize = (n % 91) as usize;
        let digit = table.substring_char(d, d + 1);
        let mut out = write_base91(n / 91);
        out.append(digit);
        proof {
            assert(digit@ == seq![table@[d as int]]);
            assert(out@ == base91((n / 91) as nat).push(table@[d as int]));
        }
        out
    }
}

/// Calls `Hash::hash` of the list of fields, which writes the fields to
/// `hasher`. std does not say what is written, so nothing is claimed of the
/// hasher afterwards.
#[verifier::external_body]
pub(crate) fn write_fields(fields: &Vec<String>, hasher: &mut DefaultHasher) {
    std::hash::Hash::hash(fields, hasher)
}

/// The identifier of a note for which none was chosen: a hash of its fields,
/// written in base 91.
pub fn guid_for(fields: &Vec<String>) -> (r: String)
    ensures
        is_generated_guid(r@),
{
    let mut hasher = DefaultHasher::new();
    write_fields(fields, &mut hasher);
    guid_from_hash(hasher.finish())
}

} // verus!
