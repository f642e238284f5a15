//! The text normaliser and the credit-type classifier.

use crate::crawlers::credit::CreditType;
use crate::text::{contains, has_substring, join, joined, trim, trimmed};
use vstd::prelude::*;

verus! {

/// The trimmed fragments of `fragments` that are not empty, in their order.
pub open spec fn survivors(fragments: Seq<Seq<char>>) -> Seq<Seq<char>>
    decreases fragments.len(),
{
    if fragments.len() == 0 {
        Seq::empty()
    } else {
        let before = survivors(fragments.drop_last());
        let last = trimmed(fragments.last());
        if last.len() == 0 {
            before
        } else {
            before.push(last)
        }
    }
}

/// The text that the fragments of one node stand for: each fragment trimmed,
/// the empty ones dropped, the rest joined by single spaces.
pub open spec fn cleaned(fragments: Seq<Seq<char>>) -> Seq<char> {
    joined(survivors(fragments), " "@)
}

/// Normalises the text fragments of one parsed node.
pub fn clean_text(fragments: &Vec<String>) -> (r: String)
    ensures
        r@ == cleaned(fragments.deep_view()),
{
    let mut kept: Vec<String> = Vec::new();
    let mut i: usize = 0;
    while i < fragments.len()
        invariant
            i <= fragments.len(),
            kept.deep_view() == survivors(fragments.deep_view().take(i as int)),
        decreases fragments.len() - i,
    {
        let ghost seen = fragments.deep_view().take(i + 1);
        proof {
            assert(seen.drop_last() == fragments.deep_view().take(i as int));
            assert(seen.last() == fragments[i as int]@);
        }
        let piece = trim(fragments[i].as_str());
        if !piece.is_empty() {
            let ghost old_kept = kept.deep_view();
            kept.push(piece.to_owned());
            proof {
                assert(kept.deep_view() == old_kept.push(piece@));
            }
        }
        i = i + 1;
    }
    proof {
        assert(fragments.deep_view().take(fragments.len() as int) == fragments.deep_view());
    }
    join(&kept, " ")
}

/// The number of keyword rules.
pub open spec fn rule_count() -> int {
    10
}

/// The keyword of rule `i`.
pub open spec fn rule_keyword(i: int) -> Seq<char> {
    if i == 0 {
        "Автокредит"@
    } else if i == 1 {
        "Ипотека"@
    } else if i == 2 {
        "Микрокредит"@
    } else if i == 3 {
        "Микрозайм"@
    } else if i == 4 {
        "Образование"@
    } else if i == 5 {
        "Образовательный"@
    } else if i == 6 {
        "Потребительский"@
    } else if i == 7 {
        "Расчетный"@
    } else if i == 8 {
        "Овердрафт"@
    } else {
        "Кредитная карта"@
    }
}

/// The category that rule `i` assigns; past the last rule, `Other`.
pub open spec fn rule_type(i: int) -> CreditType {
    if i == 0 {
        CreditType::Auto
    } else if i == 1 {
        CreditType::Mortgage
    } else if i == 2 || i == 3 {
        CreditType::Micro
    } else if i == 4 || i == 5 {
        CreditType::Education
    } else if i == 6 {
        CreditType::Consumer
    } else if i == 7 || i == 8 {
        CreditType::Overdraft
    } else if i == 9 {
        CreditType::CreditCard
    } else {
        CreditType::Other
    }
}

/// Whether rule `i` matches `title`.
pub open spec fn rule_matches(title: Seq<char>, i: int) -> bool {
    has_substring(title, rule_keyword(i))
}

/// The first rule at or after `from` that matches `title`; `rule_count()`
/// where none does.
pub open spec fn first_match(title: Seq<char>, from: int) -> int
    decreases rule_count() - from,
{
    if from >= rule_count() {
        rule_count()
    } else if rule_matches(title, from) {
        from
    } else {
        first_match(title, from + 1)
    }
}

/// The category of `title`: that of the first matching rule.
pub open spec fn credit_type_of(title: Seq<char>) -> CreditType {
    rule_type(first_match(title, 0))
}

fn rule(i: usize) -> (r: (&'static str, CreditType))
    requires
        i < rule_count(),
    ensures
        r.0@ == rule_keyword(i as int),
        r.1 == rule_type(i as int),
{
    if i == 0 {
        ("Автокредит", CreditType::Auto)
    } else if i == 1 {
        ("Ипотека", CreditType::Mortgage)
    } else if i == 2 {
        ("Микрокредит", CreditType::Micro)
    } else if i == 3 {
        ("Микрозайм", CreditType::Micro)
    } else if i == 4 {
        ("Образование", CreditType::Education)
    } else if i == 5 {
        ("Образовательный", CreditType::Education)
    } else if i == 6 {
        ("Потребительский", CreditType::Consumer)
    } else if i == 7 {
        ("Расчетный", CreditType::Overdraft)
    } else if i == 8 {
        ("Овердрафт", CreditType::Overdraft)
    } else {
        ("Кредитная карта", CreditType::CreditCard)
    }
}

/// Classifies an offer by its title.
pub fn find_credit_type(title: &str) -> (r: CreditType)
    ensures
        r == credit_type_of(title@),
{
    let mut i: usize = 0;
    while i < 10
        invariant
            i <= 10,
            first_match(title@, 0) == first_match(title@, i as int),
        decreases 10 - i,
    {
        let (keyword, kind) = rule(i);
        if contains(title, keyword) {
            return kind;
        }
        i = i + 1;
    }
    CreditType::Other
}

} // verus!
