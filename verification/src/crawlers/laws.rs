//! What holds of the text normaliser and of the classifier on every input.

use crate::crawlers::credit::CreditType;
use crate::crawlers::text_helpers::{
    cleaned, credit_type_of, first_match, rule_count, rule_keyword, rule_matches, rule_type,
    survivors,
};
use crate::text::{is_whitespace, joined, occurs_at, skip_leading, skip_trailing, trimmed};
use vstd::prelude::*;

verus! {

/// What is left after the leading white space is gone is empty or starts with
/// another character, and it is a suffix of the text.
pub proof fn lemma_skip_leading(s: Seq<char>)
    ensures
        skip_leading(s).len() <= s.len(),
        skip_leading(s) == s.subrange(s.len() - skip_leading(s).len(), s.len() as int),
        skip_leading(s).len() > 0 ==> !is_whitespace(skip_leading(s)[0]),
    decreases s.len(),
{
    if s.len() > 0 && is_whitespace(s[0]) {
        let rest = s.drop_first();
        lemma_skip_leading(rest);
        let k = skip_leading(rest).len();
        assert(rest.subrange(rest.len() - k, rest.len() as int) == s.subrange(
            s.len() - k,
            s.len() as int,
        ));
    } else {
        assert(s.subrange(0, s.len() as int) == s);
    }
}

/// What is left after the trailing white space is gone is empty or ends with
/// another character, and it is a prefix of the text.
pub proof fn lemma_skip_trailing(s: Seq<char>)
    ensures
        skip_trailing(s).len() <= s.len(),
        skip_trailing(s) == s.subrange(0, skip_trailing(s).len() as int),
        skip_trailing(s).len() > 0 ==> !is_whitespace(skip_trailing(s).last()),
    decreases s.len(),
{
    if s.len() > 0 && is_whitespace(s.last()) {
        let rest = s.drop_last();
        lemma_skip_trailing(rest);
        let k = skip_trailing(rest).len() as int;
        assert(rest.subrange(0, k) == s.subrange(0, k));
    } else {
        assert(s.subrange(0, s.len() as int) == s);
    }
}

/// A trimmed text is empty, or starts and ends with characters that are not
/// white space.
pub proof fn lemma_trimmed_ends(s: Seq<char>)
    ensures
        trimmed(s).len() > 0 ==> !is_whitespace(trimmed(s)[0]) && !is_whitespace(
            trimmed(s).last(),
        ),
{
    let lead = skip_leading(s);
    lemma_skip_leading(s);
    lemma_skip_trailing(lead);
}

/// Trimming changes nothing in a text that is empty or that starts and ends
/// with characters that are not white space.
pub proof fn lemma_trimmed_fixed(s: Seq<char>)
    requires
        s.len() > 0 ==> !is_whitespace(s[0]) && !is_whitespace(s.last()),
    ensures
        trimmed(s) == s,
{
}

/// Every surviving fragment is non-empty and has no white space at its ends.
pub proof fn lemma_survivors_are_trimmed(fragments: Seq<Seq<char>>, i: int)
    requires
        0 <= i < survivors(fragments).len(),
    ensures
        survivors(fragments)[i].len() > 0,
        !is_whitespace(survivors(fragments)[i][0]),
        !is_whitespace(survivors(fragments)[i].last()),
    decreases fragments.len(),
{
    if fragments.len() > 0 {
        let before = survivors(fragments.drop_last());
        let last = trimmed(fragments.last());
        if i < before.len() {
            lemma_survivors_are_trimmed(fragments.drop_last(), i);
        } else {
            lemma_trimmed_ends(fragments.last());
        }
    }
}

/// Joining non-empty parts gives a text that starts as the first part starts
/// and ends as the last part ends.
pub proof fn lemma_joined_ends(parts: Seq<Seq<char>>, sep: Seq<char>)
    requires
        parts.len() > 0,
        forall|i: int| 0 <= i < parts.len() ==> (#[trigger] parts[i]).len() > 0,
    ensures
        joined(parts, sep).len() > 0,
        joined(parts, sep)[0] == parts[0][0],
        joined(parts, sep).last() == parts.last().last(),
    decreases parts.len(),
{
    if parts.len() > 1 {
        let front = parts.drop_last();
        assert forall|i: int| 0 <= i < front.len() implies (#[trigger] front[i]).len() > 0 by {
            assert(front[i] == parts[i]);
        }
        lemma_joined_ends(front, sep);
        assert(front[0] == parts[0]);
    }
}

/// Cleaning is idempotent: a text that came out of the normaliser, handed back
/// to it as a single fragment, comes out unchanged.
pub proof fn lemma_clean_is_idempotent(fragments: Seq<Seq<char>>)
    ensures
        cleaned(seq![cleaned(fragments)]) == cleaned(fragments),
{
    let kept = survivors(fragments);
    let once = cleaned(fragments);
    let single = seq![once];
    assert(single.drop_last() == Seq::<Seq<char>>::empty());
    assert(single.last() == once);
    assert(survivors(single.drop_last()) == Seq::<Seq<char>>::empty());
    if kept.len() == 0 {
        assert(once.len() == 0);
        lemma_trimmed_fixed(once);
        assert(survivors(single) == Seq::<Seq<char>>::empty());
    } else {
        assert forall|i: int| 0 <= i < kept.len() implies (#[trigger] kept[i]).len() > 0 by {
            lemma_survivors_are_trimmed(fragments, i);
        }
        lemma_joined_ends(kept, " "@);
        lemma_survivors_are_trimmed(fragments, 0);
        lemma_survivors_are_trimmed(fragments, kept.len() - 1);
        lemma_trimmed_fixed(once);
        assert(survivors(single) == Seq::<Seq<char>>::empty().push(once));
        assert(survivors(single) == seq![once]);
    }
}

/// The classifier answers with the category of the earliest rule that
/// matches: a rule decides as soon as none before it matches, whatever the
/// later rules say.
pub proof fn lemma_earliest_rule_decides(title: Seq<char>, i: int)
    requires
        0 <= i < rule_count(),
        rule_matches(title, i),
        forall|k: int| 0 <= k < i ==> !rule_matches(title, k),
    ensures
        credit_type_of(title) == rule_type(i),
{
    lemma_first_match_from(title, 0, i);
}

proof fn lemma_first_match_from(title: Seq<char>, from: int, i: int)
    requires
        0 <= from <= i < rule_count(),
        rule_matches(title, i),
        forall|k: int| from <= k < i ==> !rule_matches(title, k),
    ensures
        first_match(title, from) == i,
    decreases i - from,
{
    if from < i {
        lemma_first_match_from(title, from + 1, i);
    }
}

/// Of two rules that both match, the later one never decides: the answer is
/// that of a rule at or before the earlier of the two.
pub proof fn lemma_competing_rules(title: Seq<char>, i: int, j: int)
    requires
        0 <= i < j < rule_count(),
        rule_matches(title, i),
        rule_matches(title, j),
    ensures
        first_match(title, 0) <= i,
        rule_matches(title, first_match(title, 0)),
        (forall|k: int| 0 <= k < i ==> !rule_matches(title, k)) ==> credit_type_of(title)
            == rule_type(i),
{
    lemma_first_match_at_most(title, 0, i);
    if forall|k: int| 0 <= k < i ==> !rule_matches(title, k) {
        lemma_earliest_rule_decides(title, i);
    }
}

proof fn lemma_first_match_at_most(title: Seq<char>, from: int, i: int)
    requires
        0 <= from <= i < rule_count(),
        rule_matches(title, i),
    ensures
        from <= first_match(title, from) <= i,
        rule_matches(title, first_match(title, from)),
    decreases i - from,
{
    if from < i && !rule_matches(title, from) {
        lemma_first_match_at_most(title, from + 1, i);
    }
}

/// A title in which no keyword stands is classified `Other`.
pub proof fn lemma_no_keyword_is_other(title: Seq<char>)
    requires
        forall|k: int| 0 <= k < rule_count() ==> !rule_matches(title, k),
    ensures
        credit_type_of(title) == CreditType::Other,
{
    lemma_first_match_none(title, 0);
}

proof fn lemma_first_match_none(title: Seq<char>, from: int)
    requires
        0 <= from <= rule_count(),
        forall|k: int| from <= k < rule_count() ==> !rule_matches(title, k),
    ensures
        first_match(title, from) == rule_count(),
    decreases rule_count() - from,
{
    if from < rule_count() {
        lemma_first_match_none(title, from + 1);
    }
}

/// No keyword is empty.
pub proof fn lemma_keywords_not_empty(i: int)
    requires
        0 <= i < rule_count(),
    ensures
        rule_keyword(i).len() > 0,
{
    reveal_strlit("Автокредит");
    reveal_strlit("Ипотека");
    reveal_strlit("Микрокредит");
    reveal_strlit("Микрозайм");
    reveal_strlit("Образование");
    reveal_strlit("Образовательный");
    reveal_strlit("Потребительский");
    reveal_strlit("Расчетный");
    reveal_strlit("Овердрафт");
    reveal_strlit("Кредитная карта");
}

/// The empty title is classified `Other`.
pub proof fn lemma_empty_title_is_other()
    ensures
        credit_type_of(Seq::<char>::empty()) == CreditType::Other,
{
    let title = Seq::<char>::empty();
    assert forall|k: int| 0 <= k < rule_count() implies !rule_matches(title, k) by {
        lemma_keywords_not_empty(k);
        assert forall|at: int| !occurs_at(title, rule_keyword(k), at) by {}
    }
    lemma_no_keyword_is_other(title);
}

} // verus!
