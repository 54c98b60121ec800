//! Sorted association lists.
//!
//! The snapshot's `network` and `volumes` maps are kept as vectors of
//! key/value pairs whose keys strictly increase in the order of
//! `crate::order`. Inserting an entry whose key is already present replaces
//! the old entry (last write wins), so filling a map from a list of raw
//! entries behaves like filling an ordered map.

use vstd::prelude::*;

verus! {

use crate::order::key_eq;
use crate::order::key_lt;
use crate::order::lemma_lex_lt_transitive;
use crate::order::lemma_lex_lt_trichotomy;
use crate::order::str_key_eq;
use crate::order::str_key_lt;

/// The abstract content of an association list: each pair as the key's
/// characters together with the value's view.
pub open spec fn pairs_view<T: View>(s: Seq<(String, T)>) -> Seq<(Seq<char>, T::V)> {
    s.map_values(|p: (String, T)| (p.0@, p.1@))
}

/// Keys strictly increase from left to right.
pub open spec fn sorted_keys<V>(s: Seq<(Seq<char>, V)>) -> bool {
    forall|i: int, j: int|
        0 <= i < j < s.len() ==> key_lt(#[trigger] s[i].0, #[trigger] s[j].0)
}

/// Insert a pair into a sorted sequence: before the first key that does not
/// order below `k`, replacing that key's pair when it equals `k`.
pub open spec fn map_insert<V>(
    s: Seq<(Seq<char>, V)>,
    k: Seq<char>,
    v: V,
) -> Seq<(Seq<char>, V)>
    decreases s.len(),
{
    if s.len() == 0 {
        seq![(k, v)]
    } else if key_lt(s[0].0, k) {
        seq![s[0]] + map_insert(s.drop_first(), k, v)
    } else if key_eq(s[0].0, k) {
        seq![(k, v)] + s.drop_first()
    } else {
        seq![(k, v)] + s
    }
}

/// Insert the pairs of `entries` in order, starting from `s`.
pub open spec fn map_insert_all<V>(
    s: Seq<(Seq<char>, V)>,
    entries: Seq<(Seq<char>, V)>,
) -> Seq<(Seq<char>, V)>
    decreases entries.len(),
{
    if entries.len() == 0 {
        s
    } else {
        map_insert(map_insert_all(s, entries.drop_last()), entries.last().0, entries.last().1)
    }
}

/// Every pair of `map_insert(s, k, v)` is `(k, v)` or a pair of `s`.
pub proof fn lemma_map_insert_keys<V>(s: Seq<(Seq<char>, V)>, k: Seq<char>, v: V)
    ensures
        forall|i: int|
            0 <= i < map_insert(s, k, v).len() ==> (#[trigger] map_insert(s, k, v)[i]) == (k, v)
                || exists|j: int| 0 <= j < s.len() && map_insert(s, k, v)[i] == #[trigger] s[j],
    decreases s.len(),
{
    if s.len() > 0 && key_lt(s[0].0, k) {
        lemma_map_insert_keys(s.drop_first(), k, v);
        let r = map_insert(s, k, v);
        let rr = map_insert(s.drop_first(), k, v);
        assert forall|i: int| 0 <= i < r.len() implies (#[trigger] r[i]) == (k, v)
            || exists|j: int| 0 <= j < s.len() && r[i] == #[trigger] s[j] by {
            if i == 0 {
                assert(r[i] == s[0]);
            } else {
                assert(r[i] == rr[i - 1]);
                if rr[i - 1] != (k, v) {
                    let j = choose|j: int|
                        0 <= j < s.drop_first().len() && rr[i - 1] == s.drop_first()[j];
                    assert(s.drop_first()[j] == s[j + 1]);
                }
            }
        }
    }
}

/// A property that holds of every pair of `s` and of every inserted pair
/// holds of every pair of the filled map.
pub proof fn lemma_map_insert_all_pairs<V>(
    s: Seq<(Seq<char>, V)>,
    entries: Seq<(Seq<char>, V)>,
    p: spec_fn((Seq<char>, V)) -> bool,
)
    requires
        forall|i: int| 0 <= i < s.len() ==> p(#[trigger] s[i]),
        forall|i: int| 0 <= i < entries.len() ==> p(#[trigger] entries[i]),
    ensures
        forall|i: int|
            0 <= i < map_insert_all(s, entries).len() ==> p(#[trigger] map_insert_all(s, entries)[i]),
    decreases entries.len(),
{
    if entries.len() > 0 {
        let front = entries.drop_last();
        let mid = map_insert_all(s, front);
        let r = map_insert_all(s, entries);
        lemma_map_insert_all_pairs(s, front, p);
        lemma_map_insert_keys(mid, entries.last().0, entries.last().1);
        assert forall|i: int| 0 <= i < r.len() implies p(#[trigger] r[i]) by {
            if r[i] == (entries.last().0, entries.last().1) {
                assert((entries.last().0, entries.last().1) == entries.last());
                assert(p(entries.last()));
            } else {
                let j = choose|j: int| 0 <= j < mid.len() && r[i] == #[trigger] mid[j];
                assert(p(mid[j]));
            }
        }
    }
}

/// Inserting into a sorted sequence keeps it sorted.
pub proof fn lemma_map_insert_sorted<V>(s: Seq<(Seq<char>, V)>, k: Seq<char>, v: V)
    requires
        sorted_keys(s),
    ensures
        sorted_keys(map_insert(s, k, v)),
    decreases s.len(),
{
    let r = map_insert(s, k, v);
    if s.len() == 0 {
        assert(sorted_keys(r));
    } else if key_lt(s[0].0, k) {
        let rest = s.drop_first();
        assert(sorted_keys(rest)) by {
            assert forall|i: int, j: int| 0 <= i < j < rest.len() implies key_lt(
                #[trigger] rest[i].0,
                #[trigger] rest[j].0,
            ) by {
                assert(rest[i] == s[i + 1]);
                assert(rest[j] == s[j + 1]);
            }
        }
        lemma_map_insert_sorted(rest, k, v);
        lemma_map_insert_keys(rest, k, v);
        let rr = map_insert(rest, k, v);
        assert forall|i: int, j: int| 0 <= i < j < r.len() implies key_lt(
            #[trigger] r[i].0,
            #[trigger] r[j].0,
        ) by {
            if i == 0 {
                assert(r[j] == rr[j - 1]);
                if rr[j - 1] == (k, v) {
                    assert(key_lt(s[0].0, k));
                } else {
                    let m = choose|m: int| 0 <= m < rest.len() && rr[j - 1] == #[trigger] rest[m];
                    assert(rest[m] == s[m + 1]);
                    assert(key_lt(s[0].0, s[m + 1].0));
                }
            } else {
                assert(r[i] == rr[i - 1]);
                assert(r[j] == rr[j - 1]);
            }
        }
    } else if key_eq(s[0].0, k) {
        assert forall|i: int, j: int| 0 <= i < j < r.len() implies key_lt(
            #[trigger] r[i].0,
            #[trigger] r[j].0,
        ) by {
            if i == 0 {
                assert(r[j] == s.drop_first()[j - 1]);
                assert(s.drop_first()[j - 1] == s[j]);
                assert(key_lt(s[0].0, s[j].0));
            } else {
                assert(r[i] == s[i]);
                assert(r[j] == s[j]);
            }
        }
    } else {
        lemma_lex_lt_trichotomy(vstd::utf8::encode_utf8(s[0].0), vstd::utf8::encode_utf8(k));
        assert(key_lt(k, s[0].0));
        assert forall|i: int, j: int| 0 <= i < j < r.len() implies key_lt(
            #[trigger] r[i].0,
            #[trigger] r[j].0,
        ) by {
            if i == 0 {
                assert(r[j] == s[j - 1]);
                if j > 1 {
                    lemma_lex_lt_transitive(
                        vstd::utf8::encode_utf8(k),
                        vstd::utf8::encode_utf8(s[0].0),
                        vstd::utf8::encode_utf8(s[j - 1].0),
                    );
                }
            } else {
                assert(r[i] == s[i - 1]);
                assert(r[j] == s[j - 1]);
            }
        }
    }
}

/// Inserting every entry of a list keeps a sorted sequence sorted.
pub proof fn lemma_map_insert_all_sorted<V>(
    s: Seq<(Seq<char>, V)>,
    entries: Seq<(Seq<char>, V)>,
)
    requires
        sorted_keys(s),
    ensures
        sorted_keys(map_insert_all(s, entries)),
    decreases entries.len(),
{
    if entries.len() > 0 {
        lemma_map_insert_all_sorted(s, entries.drop_last());
        lemma_map_insert_sorted(
            map_insert_all(s, entries.drop_last()),
            entries.last().0,
            entries.last().1,
        );
    }
}

/// The UTF-8 encodings of the keys present in an association sequence.
pub open spec fn key_set<V>(s: Seq<(Seq<char>, V)>) -> Set<Seq<u8>> {
    Set::new(
        |b: Seq<u8>|
            exists|i: int|
                0 <= i < s.len() && b == vstd::utf8::encode_utf8((#[trigger] s[i]).0),
    )
}

proof fn lemma_key_set_cons<V>(x: (Seq<char>, V), t: Seq<(Seq<char>, V)>)
    ensures
        key_set(seq![x] + t) == key_set(t).insert(vstd::utf8::encode_utf8(x.0)),
{
    let l = seq![x] + t;
    let target = key_set(t).insert(vstd::utf8::encode_utf8(x.0));
    assert forall|b: Seq<u8>| key_set(l).contains(b) implies target.contains(b) by {
        let i = choose|i: int| 0 <= i < l.len() && b == vstd::utf8::encode_utf8(l[i].0);
        if i > 0 {
            assert(l[i] == t[i - 1]);
        }
    }
    assert forall|b: Seq<u8>| target.contains(b) implies key_set(l).contains(b) by {
        if b == vstd::utf8::encode_utf8(x.0) {
            assert(l[0] == x);
        } else {
            let i = choose|i: int| 0 <= i < t.len() && b == vstd::utf8::encode_utf8(t[i].0);
            assert(l[i + 1] == t[i]);
        }
    }
    assert(key_set(l) =~= target);
}

proof fn lemma_key_set_snoc<V>(t: Seq<(Seq<char>, V)>, x: (Seq<char>, V))
    ensures
        key_set(t.push(x)) == key_set(t).insert(vstd::utf8::encode_utf8(x.0)),
{
    let l = t.push(x);
    let target = key_set(t).insert(vstd::utf8::encode_utf8(x.0));
    assert forall|b: Seq<u8>| key_set(l).contains(b) implies target.contains(b) by {
        let i = choose|i: int| 0 <= i < l.len() && b == vstd::utf8::encode_utf8(l[i].0);
        if i < t.len() {
            assert(l[i] == t[i]);
        }
    }
    assert forall|b: Seq<u8>| target.contains(b) implies key_set(l).contains(b) by {
        if b == vstd::utf8::encode_utf8(x.0) {
            assert(l[t.len() as int] == x);
        } else {
            let i = choose|i: int| 0 <= i < t.len() && b == vstd::utf8::encode_utf8(t[i].0);
            assert(l[i] == t[i]);
        }
    }
    assert(key_set(l) =~= target);
}

/// Inserting `(k, v)` adds exactly `k` to the keys.
pub proof fn lemma_map_insert_key_set<V>(s: Seq<(Seq<char>, V)>, k: Seq<char>, v: V)
    ensures
        key_set(map_insert(s, k, v)) == key_set(s).insert(vstd::utf8::encode_utf8(k)),
    decreases s.len(),
{
    let enc_k = vstd::utf8::encode_utf8(k);
    if s.len() == 0 {
        assert(map_insert(s, k, v) =~= seq![(k, v)] + Seq::<(Seq<char>, V)>::empty());
        lemma_key_set_cons((k, v), Seq::<(Seq<char>, V)>::empty());
        assert(key_set(Seq::<(Seq<char>, V)>::empty()) =~= Set::<Seq<u8>>::empty());
        assert(key_set(s) =~= Set::<Seq<u8>>::empty());
    } else {
        let rest = s.drop_first();
        assert(s =~= seq![s[0]] + rest);
        lemma_key_set_cons(s[0], rest);
        if key_lt(s[0].0, k) {
            lemma_map_insert_key_set(rest, k, v);
            lemma_key_set_cons(s[0], map_insert(rest, k, v));
            assert(key_set(map_insert(s, k, v)) =~= key_set(s).insert(enc_k));
        } else if key_eq(s[0].0, k) {
            lemma_key_set_cons((k, v), rest);
            assert(key_set(map_insert(s, k, v)) =~= key_set(s).insert(enc_k));
        } else {
            lemma_key_set_cons((k, v), s);
            assert(key_set(map_insert(s, k, v)) =~= key_set(s).insert(enc_k));
        }
    }
}

/// Law: filling a map inserts exactly the listed keys — the keys of the
/// filled map are the keys it started with together with the keys of the
/// inserted entries, and nothing else.
pub proof fn lemma_map_insert_all_key_set<V>(
    s: Seq<(Seq<char>, V)>,
    entries: Seq<(Seq<char>, V)>,
)
    ensures
        key_set(map_insert_all(s, entries)) == key_set(s).union(key_set(entries)),
    decreases entries.len(),
{
    if entries.len() == 0 {
        assert(key_set(entries) =~= Set::<Seq<u8>>::empty());
        assert(key_set(s).union(key_set(entries)) =~= key_set(s));
    } else {
        let front = entries.drop_last();
        let last = entries.last();
        lemma_map_insert_all_key_set(s, front);
        lemma_map_insert_key_set(map_insert_all(s, front), last.0, last.1);
        assert(entries =~= front.push(last));
        lemma_key_set_snoc(front, last);
        assert(key_set(map_insert_all(s, entries)) =~= key_set(s).union(key_set(entries)));
    }
}

/// When the first `i` keys of sorted `s` order below `k`, inserting skips them.
proof fn lemma_map_insert_split<V>(s: Seq<(Seq<char>, V)>, k: Seq<char>, v: V, i: int)
    requires
        0 <= i <= s.len(),
        forall|j: int| 0 <= j < i ==> key_lt(#[trigger] s[j].0, k),
    ensures
        map_insert(s, k, v) == s.take(i) + map_insert(s.skip(i), k, v),
    decreases i,
{
    if i == 0 {
        assert(s.skip(0) =~= s);
        assert(s.take(0) + map_insert(s, k, v) =~= map_insert(s, k, v));
    } else {
        let rest = s.drop_first();
        assert(key_lt(s[0].0, k));
        lemma_map_insert_split(rest, k, v, i - 1);
        assert(rest.take(i - 1) =~= s.take(i).drop_first());
        assert(rest.skip(i - 1) =~= s.skip(i));
        assert(seq![s[0]] + (rest.take(i - 1) + map_insert(rest.skip(i - 1), k, v)) =~= s.take(i)
            + map_insert(s.skip(i), k, v));
    }
}

/// Insert `(key, value)` into a vector whose keys are sorted, keeping it
/// sorted and replacing the entry of an equal key.
pub fn assoc_insert<T: View>(entries: &mut Vec<(String, T)>, key: String, value: T)
    requires
        sorted_keys(pairs_view(old(entries)@)),
    ensures
        pairs_view(final(entries)@) == map_insert(pairs_view(old(entries)@), key@, value@),
        sorted_keys(pairs_view(final(entries)@)),
{
    let ghost s = pairs_view(entries@);
    proof {
        lemma_map_insert_sorted(s, key@, value@);
    }
    let mut i: usize = 0;
    loop
        invariant
            i <= entries.len(),
            entries@ == old(entries)@,
            s == pairs_view(entries@),
            sorted_keys(s),
            sorted_keys(map_insert(s, key@, value@)),
            forall|j: int| 0 <= j < i ==> key_lt((#[trigger] s[j]).0, key@),
        decreases entries.len() - i,
    {
        if i == entries.len() {
            proof {
                lemma_map_insert_split(s, key@, value@, i as int);
                assert(s.take(i as int) =~= s);
                assert(s.skip(i as int) =~= Seq::<(Seq<char>, T::V)>::empty());
            }
            entries.push((key, value));
            proof {
                assert(pairs_view(entries@) =~= s + seq![(key@, value@)]);
                assert(s + map_insert(Seq::<(Seq<char>, T::V)>::empty(), key@, value@) =~= s
                    + seq![(key@, value@)]);
            }
            return ;
        }
        let cur_lt = str_key_lt(entries[i].0.as_str(), key.as_str());
        if cur_lt {
            proof {
                assert(s[i as int].0 == entries@[i as int].0@);
            }
            i = i + 1;
            continue ;
        }
        let cur_eq = str_key_eq(entries[i].0.as_str(), key.as_str());
        proof {
            lemma_map_insert_split(s, key@, value@, i as int);
            assert(s.skip(i as int)[0] == s[i as int]);
        }
        if cur_eq {
            entries.set(i, (key, value));
            proof {
                assert(s.skip(i as int).drop_first() =~= s.skip(i as int + 1));
                assert(pairs_view(entries@) =~= s.take(i as int) + (seq![(key@, value@)] + s.skip(
                    i as int + 1,
                )));
            }
        } else {
            entries.insert(i, (key, value));
            proof {
                assert(pairs_view(entries@) =~= s.take(i as int) + (seq![(key@, value@)] + s.skip(
                    i as int,
                )));
            }
        }
        return ;
    }
}

} // verus!
