//! Literal token substitution over template text.
//!
//! A pass takes an ordered mapping from tokens to replacements and applies
//! its entries one after another, each to the text that the entries before
//! it left behind.

use crate::ordered::{entry_keys, OrderedMap};
use crate::text::{lemma_replace_absent, occurs, replace, replace_all};
use vstd::prelude::*;

verus! {

/// An ordered mapping from tokens to their replacements.
pub type Inserts = OrderedMap<String>;

/// The text that one pass makes of `s`: the entries are visited in order,
/// and each replaces every occurrence of its token in what the earlier
/// entries produced.
pub open spec fn pass(s: Seq<char>, entries: Seq<(Seq<char>, Seq<char>)>) -> Seq<char>
    decreases entries.len(),
{
    if entries.len() == 0 {
        s
    } else {
        replace_all(pass(s, entries.drop_last()), entries.last().0, entries.last().1)
    }
}

/// The text that several passes, one after another, make of `s`.
pub open spec fn passes(s: Seq<char>, mappings: Seq<Seq<(Seq<char>, Seq<char>)>>) -> Seq<char>
    decreases mappings.len(),
{
    if mappings.len() == 0 {
        s
    } else {
        pass(passes(s, mappings.drop_last()), mappings.last())
    }
}

/// Whether the token of some entry stands in `s`.
pub open spec fn any_token_occurs(s: Seq<char>, entries: Seq<(Seq<char>, Seq<char>)>) -> bool {
    exists|i: int| 0 <= i < entries.len() && occurs(s, #[trigger] entries[i].0)
}

/// Makes a mapping of the entries, in their order. Two entries with one
/// token make no mapping.
pub fn collect_inserts(entries: Vec<(String, String)>) -> (r: Option<Inserts>)
    ensures
        r is Some == entry_keys(entries.deep_view()).no_duplicates(),
        r is Some ==> r->0.deep_view() == entries.deep_view(),
{
    let mut res = Inserts::new();
    let ghost all = entries.deep_view();
    for pair in it: entries
        invariant
            all == entries.deep_view(),
            res.keys().len() == it.index(),
            res.values().len() == it.index(),
            forall|j: int| 0 <= j < it.index() ==> #[trigger] res.keys()[j] == all[j].0,
            forall|j: int| 0 <= j < it.index() ==> (#[trigger] res.values()[j])@ == all[j].1,
    {
        let ghost n = it.index() as int;
        let ghost keys_before = res.keys();
        let ghost values_before = res.values();
        let (token, text) = pair;
        assert(token@ == all[n].0 && text@ == all[n].1);
        match res.insert(token, text) {
            Some(_) => {
                proof {
                    let j = keys_before.index_of(all[n].0);
                    assert(keys_before[j] == all[n].0);
                    assert(entry_keys(all)[j] == entry_keys(all)[n]);
                }
                return None;
            },
            None => {
                assert(res.keys() == keys_before.push(all[n].0));
                assert(res.values() == values_before.push(text));
            },
        }
    }
    let n = res.len();
    proof {
        assert(res.keys() =~= entry_keys(all));
        assert(res.deep_view() =~= all);
    }
    Some(res)
}

/// Applies one pass of `inserts` to `input`.
pub fn insert(input: String, inserts: &Inserts) -> (output: String)
    ensures
        output@ == pass(input@, inserts.deep_view()),
{
    let mut text = input;
    let n = inserts.len();
    let mut i: usize = 0;
    while i < n
        invariant
            n == inserts.keys().len(),
            i <= n,
            text@ == pass(input@, inserts.deep_view().take(i as int)),
        decreases n - i,
    {
        let key = inserts.key_at(i);
        let value = inserts.value_at(i);
        proof {
            let entries = inserts.deep_view();
            assert(entries.take(i + 1).drop_last() =~= entries.take(i as int));
            assert(entries.take(i + 1).last() == entries[i as int]);
        }
        text = replace(text.as_str(), key.as_str(), value.as_str());
        i += 1;
    }
    proof {
        assert(inserts.deep_view().take(n as int) =~= inserts.deep_view());
    }
    text
}

/// Applies the passes of `mappings` to `input`, one after another, each to
/// what the passes before it made of the text.
pub fn insert_all(input: String, mappings: &Vec<&Inserts>) -> (output: String)
    ensures
        output@ == passes(input@, mappings.deep_view()),
{
    let mut text = input;
    let mut i: usize = 0;
    proof {
        assert(mappings.deep_view().take(0) =~= Seq::empty());
    }
    while i < mappings.len()
        invariant
            i <= mappings.len(),
            text@ == passes(input@, mappings.deep_view().take(i as int)),
        decreases mappings.len() - i,
    {
        proof {
            let all = mappings.deep_view();
            assert(all.take(i + 1).drop_last() =~= all.take(i as int));
            assert(all.take(i + 1).last() == mappings[i as int].deep_view());
        }
        text = insert(text, mappings[i]);
        i += 1;
    }
    proof {
        assert(mappings.deep_view().take(i as int) =~= mappings.deep_view());
    }
    text
}

/// The first entry of a mapping goes first: it replaces its token in the
/// input as it stands, and the other entries see only what it left. So
/// where two tokens could match at one place, the token inserted earlier
/// is the one that is replaced.
pub proof fn lemma_first_entry_goes_first(s: Seq<char>, entries: Seq<(Seq<char>, Seq<char>)>)
    requires
        entries.len() > 0,
    ensures
        pass(s, entries) == pass(replace_all(s, entries[0].0, entries[0].1), entries.skip(1)),
    decreases entries.len(),
{
    if entries.len() == 1 {
        assert(entries.drop_last().len() == 0);
        assert(entries.skip(1).len() == 0);
        assert(pass(s, entries.drop_last()) == s);
    } else {
        let front = entries.drop_last();
        lemma_first_entry_goes_first(s, front);
        assert(front[0] == entries[0]);
        assert(front.skip(1) =~= entries.skip(1).drop_last());
        assert(entries.skip(1).last() == entries.last());
    }
}

/// A pass leaves a text as it is where none of its tokens stands in it.
pub proof fn lemma_pass_without_tokens(s: Seq<char>, entries: Seq<(Seq<char>, Seq<char>)>)
    requires
        !any_token_occurs(s, entries),
    ensures
        pass(s, entries) == s,
    decreases entries.len(),
{
    if entries.len() > 0 {
        let front = entries.drop_last();
        assert forall|i: int| 0 <= i < front.len() implies !occurs(s, #[trigger] front[i].0) by {
            assert(front[i] == entries[i]);
        }
        lemma_pass_without_tokens(s, front);
        assert(entries.last() == entries[entries.len() - 1]);
        lemma_replace_absent(s, entries.last().0, entries.last().1);
    }
}

/// Replacing a token is idempotent once the text is fully substituted:
/// where the token no longer stands in the result of a replacement,
/// replacing it again changes nothing.
pub proof fn lemma_replace_idempotent(s: Seq<char>, token: Seq<char>, replacement: Seq<char>)
    requires
        !occurs(replacement, token),
        !occurs(replace_all(s, token, replacement), token),
    ensures
        replace_all(replace_all(s, token, replacement), token, replacement) == replace_all(
            s,
            token,
            replacement,
        ),
{
    lemma_replace_absent(replace_all(s, token, replacement), token, replacement);
}

/// A pass is idempotent once the text is fully substituted: where no token
/// of the mapping stands in the result of a pass, the same pass applied
/// again changes nothing.
pub proof fn lemma_pass_idempotent(s: Seq<char>, entries: Seq<(Seq<char>, Seq<char>)>)
    requires
        !any_token_occurs(pass(s, entries), entries),
    ensures
        pass(pass(s, entries), entries) == pass(s, entries),
{
    lemma_pass_without_tokens(pass(s, entries), entries);
}

} // verus!
