//! Name-keyed association sequences.
//!
//! A frame of the scope chain and the function table are both ordered lists
//! of `(name, entry)` pairs in which a lookup returns the first match and an
//! insertion replaces the first match or else appends. These spec functions
//! define that behaviour, and the lemmas relate it to positional updates,
//! which is how the executable structures realise it.

use vstd::prelude::*;

verus! {

/// First entry bound to `k`, scanning left to right.
pub open spec fn assoc_get<V>(s: Seq<(Seq<char>, V)>, k: Seq<char>) -> Option<V>
    decreases s.len(),
{
    if s.len() == 0 {
        None
    } else if s[0].0 == k {
        Some(s[0].1)
    } else {
        assoc_get(s.subrange(1, s.len() as int), k)
    }
}

/// Bind `k` to `v`: replace the first entry for `k`, or append one.
pub open spec fn assoc_set<V>(s: Seq<(Seq<char>, V)>, k: Seq<char>, v: V) -> Seq<(Seq<char>, V)>
    decreases s.len(),
{
    if s.len() == 0 {
        seq![(k, v)]
    } else if s[0].0 == k {
        seq![(k, v)] + s.subrange(1, s.len() as int)
    } else {
        seq![s[0]] + assoc_set(s.subrange(1, s.len() as int), k, v)
    }
}

/// When the first match for `k` stands at position `i`, the lookup returns
/// that entry.
pub proof fn lemma_assoc_get_found<V>(s: Seq<(Seq<char>, V)>, k: Seq<char>, i: int)
    requires
        0 <= i < s.len(),
        s[i].0 == k,
        forall|j: int| 0 <= j < i ==> s[j].0 != k,
    ensures
        assoc_get(s, k) == Some(s[i].1),
    decreases i,
{
    if i == 0 {
    } else {
        lemma_assoc_get_found(s.subrange(1, s.len() as int), k, i - 1);
    }
}

/// When no entry is bound to `k`, the lookup misses.
pub proof fn lemma_assoc_get_missing<V>(s: Seq<(Seq<char>, V)>, k: Seq<char>)
    requires
        forall|j: int| 0 <= j < s.len() ==> s[j].0 != k,
    ensures
        assoc_get(s, k) is None,
    decreases s.len(),
{
    if s.len() > 0 {
        lemma_assoc_get_missing(s.subrange(1, s.len() as int), k);
    }
}

/// When the first match for `k` stands at position `i`, binding `k` updates
/// that position in place.
pub proof fn lemma_assoc_set_found<V>(s: Seq<(Seq<char>, V)>, k: Seq<char>, v: V, i: int)
    requires
        0 <= i < s.len(),
        s[i].0 == k,
        forall|j: int| 0 <= j < i ==> s[j].0 != k,
    ensures
        assoc_set(s, k, v) == s.update(i, (k, v)),
    decreases i,
{
    if i == 0 {
        assert(assoc_set(s, k, v) =~= s.update(0, (k, v)));
    } else {
        lemma_assoc_set_found(s.subrange(1, s.len() as int), k, v, i - 1);
        assert(assoc_set(s, k, v) =~= s.update(i, (k, v)));
    }
}

/// When no entry is bound to `k`, binding `k` appends a new entry.
pub proof fn lemma_assoc_set_missing<V>(s: Seq<(Seq<char>, V)>, k: Seq<char>, v: V)
    requires
        forall|j: int| 0 <= j < s.len() ==> s[j].0 != k,
    ensures
        assoc_set(s, k, v) == s.push((k, v)),
    decreases s.len(),
{
    if s.len() == 0 {
        assert(assoc_set(s, k, v) =~= s.push((k, v)));
    } else {
        lemma_assoc_set_missing(s.subrange(1, s.len() as int), k, v);
        assert(assoc_set(s, k, v) =~= s.push((k, v)));
    }
}

/// Binding then looking up the same name yields the bound entry.
pub proof fn lemma_assoc_set_get<V>(s: Seq<(Seq<char>, V)>, k: Seq<char>, v: V)
    ensures
        assoc_get(assoc_set(s, k, v), k) == Some(v),
    decreases s.len(),
{
    reveal_with_fuel(assoc_get, 2);
    reveal_with_fuel(assoc_set, 2);
    if s.len() == 0 {
    } else if s[0].0 == k {
        assert(assoc_set(s, k, v)[0] == (k, v));
    } else {
        lemma_assoc_set_get(s.subrange(1, s.len() as int), k, v);
        assert(assoc_set(s, k, v)[0] == s[0]);
        assert(assoc_set(s, k, v).subrange(1, assoc_set(s, k, v).len() as int) =~= assoc_set(
            s.subrange(1, s.len() as int),
            k,
            v,
        ));
    }
}

/// Binding one name leaves every other name's lookup unchanged.
pub proof fn lemma_assoc_set_other<V>(s: Seq<(Seq<char>, V)>, k: Seq<char>, v: V, k2: Seq<char>)
    requires
        k2 != k,
    ensures
        assoc_get(assoc_set(s, k, v), k2) == assoc_get(s, k2),
    decreases s.len(),
{
    reveal_with_fuel(assoc_get, 2);
    reveal_with_fuel(assoc_set, 2);
    if s.len() == 0 {
    } else if s[0].0 == k {
        assert(assoc_set(s, k, v)[0] == (k, v));
        assert(assoc_set(s, k, v).subrange(1, assoc_set(s, k, v).len() as int) =~= s.subrange(
            1,
            s.len() as int,
        ));
    } else {
        lemma_assoc_set_other(s.subrange(1, s.len() as int), k, v, k2);
        assert(assoc_set(s, k, v)[0] == s[0]);
        assert(assoc_set(s, k, v).subrange(1, assoc_set(s, k, v).len() as int) =~= assoc_set(
            s.subrange(1, s.len() as int),
            k,
            v,
        ));
    }
}

} // verus!
