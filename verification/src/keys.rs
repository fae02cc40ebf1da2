//! Key-token normalization and the destructive-combination guard: a fixed
//! table of dangerous key sets that must all be present (after
//! normalization) for a request to need explicit confirmation.

use vstd::prelude::*;
use vstd::string::*;
use crate::text::contains_str;
use crate::text::lower_ascii;
use crate::text::lower_seq;
use crate::text::str_eq;
use crate::text::trim_seq;
use crate::text::trim_str;

verus! {

/// A key token normalized: trimmed, case-folded, and collapsed onto its
/// canonical alias (`cmd` and `meta` mean `super`, `control` means
/// `ctrl`).
pub open spec fn norm_key(s: Seq<char>) -> Seq<char> {
    let t = lower_seq(trim_seq(s));
    if t == "cmd"@ || t == "meta"@ || t == "super"@ {
        "super"@
    } else if t == "control"@ {
        "ctrl"@
    } else {
        t
    }
}

/// Every key of a request, normalized.
pub open spec fn normalized_keys(keys: Seq<Seq<char>>) -> Seq<Seq<char>> {
    keys.map_values(|k: Seq<char>| norm_key(k))
}

/// Whether every token of `combo` occurs among `have` (order and
/// duplicates are irrelevant: this is set containment).
pub open spec fn combo_matches(combo: Seq<Seq<char>>, have: Seq<Seq<char>>) -> bool {
    forall|j: int| 0 <= j < combo.len() ==> have.contains(#[trigger] combo[j])
}

/// The fixed table of dangerous combinations, each a set of normalized
/// tokens that must all be present for a match.
pub open spec fn danger_combos() -> Seq<Seq<Seq<char>>> {
    seq![
        seq!["alt"@, "f4"@],
        seq!["ctrl"@, "w"@],
        seq!["ctrl"@, "q"@],
        seq!["ctrl"@, "shift"@, "q"@],
        seq!["super"@, "q"@],
        seq!["ctrl"@, "alt"@, "backspace"@],
    ]
}

/// A key-press request needs confirmation exactly when its normalized
/// key set is a superset of some table entry.  Extra unrelated keys do
/// not exempt it.
pub open spec fn confirmation_required(keys: Seq<Seq<char>>) -> bool {
    exists|i: int|
        0 <= i < danger_combos().len() && combo_matches(
            #[trigger] danger_combos()[i],
            normalized_keys(keys),
        )
}

/// Normalizes one key token: trim, case-fold, collapse aliases.
pub fn normalize_key(key: &str) -> (r: String)
    ensures
        r@ == norm_key(key@),
{
    let t = lower_ascii(trim_str(key));
    if str_eq(t.as_str(), "cmd") || str_eq(t.as_str(), "meta") || str_eq(t.as_str(), "super") {
        String::from_str("super")
    } else if str_eq(t.as_str(), "control") {
        String::from_str("ctrl")
    } else {
        t
    }
}

/// The rule table as data, so the policy reads as a set of token sets.
fn danger_table() -> (r: Vec<Vec<String>>)
    ensures
        r.deep_view() == danger_combos(),
{
    let mut table: Vec<Vec<String>> = Vec::new();

    let mut c: Vec<String> = Vec::new();
    c.push(String::from_str("alt"));
    c.push(String::from_str("f4"));
    assert(c.deep_view() =~= seq!["alt"@, "f4"@]);
    table.push(c);

    let mut c: Vec<String> = Vec::new();
    c.push(String::from_str("ctrl"));
    c.push(String::from_str("w"));
    assert(c.deep_view() =~= seq!["ctrl"@, "w"@]);
    table.push(c);

    let mut c: Vec<String> = Vec::new();
    c.push(String::from_str("ctrl"));
    c.push(String::from_str("q"));
    assert(c.deep_view() =~= seq!["ctrl"@, "q"@]);
    table.push(c);

    let mut c: Vec<String> = Vec::new();
    c.push(String::from_str("ctrl"));
    c.push(String::from_str("shift"));
    c.push(String::from_str("q"));
    assert(c.deep_view() =~= seq!["ctrl"@, "shift"@, "q"@]);
    table.push(c);

    let mut c: Vec<String> = Vec::new();
    c.push(String::from_str("super"));
    c.push(String::from_str("q"));
    assert(c.deep_view() =~= seq!["super"@, "q"@]);
    table.push(c);

    let mut c: Vec<String> = Vec::new();
    c.push(String::from_str("ctrl"));
    c.push(String::from_str("alt"));
    c.push(String::from_str("backspace"));
    assert(c.deep_view() =~= seq!["ctrl"@, "alt"@, "backspace"@]);
    table.push(c);

    proof {
        assert(table.deep_view() =~= danger_combos());
    }
    table
}

fn combo_all_present(combo: &Vec<String>, have: &Vec<String>) -> (r: bool)
    ensures
        r == combo_matches(combo.deep_view(), have.deep_view()),
{
    let mut j: usize = 0;
    while j < combo.len()
        invariant
            j <= combo.len(),
            combo.deep_view().len() == combo.len(),
            forall|k: int| 0 <= k < j ==> have.deep_view().contains(#[trigger] combo.deep_view()[k]),
        decreases combo.len() - j,
    {
        if !contains_str(have, combo[j].as_str()) {
            assert(combo.deep_view()[j as int] == combo@[j as int]@);
            return false;
        }
        j += 1;
    }
    true
}

/// Normalizes every key token of a request, keeping the order.
pub fn normalize_keys(keys: &Vec<String>) -> (r: Vec<String>)
    ensures
        r.deep_view() == normalized_keys(keys.deep_view()),
{
    let mut normalized: Vec<String> = Vec::new();
    let mut i: usize = 0;
    while i < keys.len()
        invariant
            i <= keys.len(),
            normalized@.len() == i,
            keys.deep_view().len() == keys.len(),
            forall|k: int|
                0 <= k < i ==> normalized.deep_view()[k] == norm_key(
                    #[trigger] keys.deep_view()[k],
                ),
        decreases keys.len() - i,
    {
        normalized.push(normalize_key(keys[i].as_str()));
        assert(keys.deep_view()[i as int] == keys@[i as int]@);
        i += 1;
    }
    proof {
        assert(normalized.deep_view() =~= normalized_keys(keys.deep_view()));
    }
    normalized
}

/// Classifies a key-press request against the fixed table of dangerous
/// combinations: true exactly when the normalized request is a superset
/// of some entry.
pub fn requires_confirmation(keys: &Vec<String>) -> (r: bool)
    ensures
        r == confirmation_required(keys.deep_view()),
{
    let normalized = normalize_keys(keys);
    let table = danger_table();
    let mut t: usize = 0;
    while t < table.len()
        invariant
            t <= table.len(),
            table.deep_view() == danger_combos(),
            table.deep_view().len() == table.len(),
            normalized.deep_view() == normalized_keys(keys.deep_view()),
            forall|k: int|
                0 <= k < t ==> !combo_matches(
                    #[trigger] danger_combos()[k],
                    normalized_keys(keys.deep_view()),
                ),
        decreases table.len() - t,
    {
        if combo_all_present(&table[t], &normalized) {
            assert(table.deep_view()[t as int] == table@[t as int].deep_view());
            return true;
        }
        assert(table.deep_view()[t as int] == table@[t as int].deep_view());
        t += 1;
    }
    false
}

} // verus!
