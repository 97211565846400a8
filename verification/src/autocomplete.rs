//! Autocomplete suggestions: Discord shows at most 25 of them.
use vstd::prelude::*;

use crate::select::kept;
use crate::text::{chars_of, contains_chars, contains_seq, lowercase, to_lowercase};

verus! {

/// The most suggestions one autocomplete answer may hold.
pub const MAX_CHOICES: usize = 25;

/// A suggestion: the text shown and the value sent back when picked.
pub struct Choice {
    pub label: String,
    pub value: String,
}

/// At most the first `MAX_CHOICES` entries of `s`.
pub open spec fn first_choices<T>(s: Seq<T>) -> Seq<T> {
    if s.len() > MAX_CHOICES {
        s.take(MAX_CHOICES as int)
    } else {
        s
    }
}

/// Whether `label` matches what was typed, ignoring case.
pub open spec fn label_matches(label: Seq<char>, query: Seq<char>) -> bool {
    contains_seq(lowercase(label), lowercase(query))
}

/// Cuts `v` down to its first `MAX_CHOICES` entries.
pub fn truncate_choices<T>(v: &mut Vec<T>)
    ensures
        final(v)@ == first_choices(old(v)@),
{
    if v.len() > MAX_CHOICES {
        v.truncate(MAX_CHOICES);
    }
}

/// The suggestions whose label contains what was typed, ignoring case,
/// the first `MAX_CHOICES` of them in order.
pub fn matching_choices(items: Vec<Choice>, query: &str) -> (r: Vec<Choice>)
    ensures
        r@ == first_choices(
            kept(items@, items@.map_values(|c: Choice| label_matches(c.label@, query@))),
        ),
{
    let ghost flags = items@.map_values(|c: Choice| label_matches(c.label@, query@));
    let q = chars_of(to_lowercase(query).as_str());
    let mut keep: Vec<bool> = Vec::new();
    let mut i: usize = 0;
    while i < items.len()
        invariant
            i <= items.len(),
            q@ == lowercase(query@),
            keep@ == flags.take(i as int),
            flags == items@.map_values(|c: Choice| label_matches(c.label@, query@)),
        decreases items.len() - i,
    {
        let l = chars_of(to_lowercase(items[i].label.as_str()).as_str());
        keep.push(contains_chars(&l, &q));
        assert(flags.take(i + 1) == flags.take(i as int).push(flags[i as int]));
        i += 1;
    }
    assert(flags.take(items.len() as int) == flags);
    let mut r = crate::select::select(items, &keep);
    truncate_choices(&mut r);
    r
}

} // verus!
