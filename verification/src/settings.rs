//! Caller-supplied key/value configuration: lookup with last-entry-wins
//! semantics, and normalization of keys to a canonical lowercase form.

use vstd::prelude::*;
use vstd::string::*;
use crate::strtools::{lower_of, lowercase, str_eq};

verus! {

/// The value under `key`, taking the last entry when a key repeats.
pub open spec fn lookup_value(values: Seq<(String, String)>, key: Seq<char>) -> Option<Seq<char>>
    decreases values.len(),
{
    if values.len() == 0 {
        None
    } else if values.last().0@ == key {
        Some(values.last().1@)
    } else {
        lookup_value(values.drop_last(), key)
    }
}

/// The value whose key, once lowercased, is `key`; last entry wins.
pub open spec fn lookup_norm(values: Seq<(String, String)>, key: Seq<char>) -> Option<Seq<char>>
    decreases values.len(),
{
    if values.len() == 0 {
        None
    } else if lower_of(values.last().0@) == key {
        Some(values.last().1@)
    } else {
        lookup_norm(values.drop_last(), key)
    }
}

/// Fetch the value under `key`, last entry winning.
pub fn get_value(values: &Vec<(String, String)>, key: &str) -> (r: Option<String>)
    ensures
        match r {
            Some(v) => lookup_value(values@, key@) == Some(v@),
            None => lookup_value(values@, key@) is None,
        },
{
    let mut i: usize = values.len();
    proof {
        assert(values@.subrange(0, i as int) =~= values@);
    }
    while i > 0
        invariant
            i <= values@.len(),
            lookup_value(values@, key@) == lookup_value(values@.subrange(0, i as int), key@),
        decreases i,
    {
        i -= 1;
        let ghost prefix = values@.subrange(0, i + 1);
        proof {
            assert(prefix.last() == values@[i as int]);
            assert(prefix.drop_last() =~= values@.subrange(0, i as int));
        }
        if str_eq(values[i].0.as_str(), key) {
            return Some(values[i].1.clone());
        }
    }
    proof {
        assert(values@.subrange(0, 0) =~= Seq::<(String, String)>::empty());
    }
    None
}

/// Normalize every key to lowercase, leaving values untouched.
pub fn normalize_values(values: &Vec<(String, String)>) -> (r: Vec<(String, String)>)
    ensures
        r@.len() == values@.len(),
        forall|i: int|
            0 <= i < values@.len() ==> (#[trigger] r@[i]).0@ == lower_of(values@[i].0@) && r@[i].1
                == values@[i].1,
{
    let mut out: Vec<(String, String)> = Vec::new();
    let n = values.len();
    let mut i: usize = 0;
    while i < n
        invariant
            i <= n,
            n == values@.len(),
            out@.len() == i,
            forall|j: int|
                0 <= j < i ==> (#[trigger] out@[j]).0@ == lower_of(values@[j].0@) && out@[j].1
                    == values@[j].1,
        decreases n - i,
    {
        out.push((lowercase(values[i].0.as_str()), values[i].1.clone()));
        i += 1;
    }
    out
}

/// Looking a key up after normalization finds exactly what a lowercased
/// lookup finds in the raw list.
pub proof fn lemma_lookup_normalized(
    raw: Seq<(String, String)>,
    normalized: Seq<(String, String)>,
    key: Seq<char>,
)
    requires
        normalized.len() == raw.len(),
        forall|i: int|
            0 <= i < raw.len() ==> (#[trigger] normalized[i]).0@ == lower_of(raw[i].0@)
                && normalized[i].1 == raw[i].1,
    ensures
        lookup_value(normalized, key) == lookup_norm(raw, key),
    decreases raw.len(),
{
    if raw.len() > 0 {
        assert(normalized.last() == normalized[raw.len() - 1]);
        lemma_lookup_normalized(raw.drop_last(), normalized.drop_last(), key);
    }
}

} // verus!
