//! Selections and groupings over lists, stated as index lists.

use vstd::prelude::*;

verus! {

/// The indices `i` in `0..n`, in increasing order, for which `p(i)` holds.
pub open spec fn matching_indices(n: nat, p: spec_fn(int) -> bool) -> Seq<int>
    decreases n,
{
    if n == 0 {
        Seq::empty()
    } else {
        let prev = matching_indices((n - 1) as nat, p);
        if p(n - 1) {
            prev.push(n - 1)
        } else {
            prev
        }
    }
}

/// Indices as mathematical integers.
pub open spec fn as_ints(v: Seq<usize>) -> Seq<int> {
    v.map_values(|i: usize| i as int)
}

/// The views of a list of strings.
pub open spec fn views(v: Seq<String>) -> Seq<Seq<char>> {
    v.map_values(|s: String| s@)
}

/// The values held by the `Some` entries of `s`, in order.
pub open spec fn somes<A>(s: Seq<Option<A>>) -> Seq<A>
    decreases s.len(),
{
    if s.len() == 0 {
        Seq::empty()
    } else {
        let prev = somes(s.drop_last());
        match s.last() {
            Some(a) => prev.push(a),
            None => prev,
        }
    }
}

/// The string views held by the `Some` entries of `s`, in order.
pub open spec fn some_views(s: Seq<Option<String>>) -> Seq<Seq<char>> {
    somes(s.map_values(|o: Option<String>| opt_view(o)))
}

/// The view of an optional string.
pub open spec fn opt_view(o: Option<String>) -> Option<Seq<char>> {
    match o {
        Some(s) => Some(s@),
        None => None,
    }
}

/// The indices of the entries of `keys` that hold `key`, in increasing order.
pub open spec fn members_with_key(keys: Seq<Option<i64>>, key: i64) -> Seq<int> {
    matching_indices(keys.len(), |i: int| keys[i] == Some(key))
}

/// The keys held by `keys`, each once, in the order of their first
/// occurrence; entries without a key are passed over.
pub open spec fn distinct_keys(keys: Seq<Option<i64>>) -> Seq<i64>
    decreases keys.len(),
{
    if keys.len() == 0 {
        Seq::empty()
    } else {
        let prev = distinct_keys(keys.drop_last());
        match keys.last() {
            Some(k) => if prev.contains(k) {
                prev
            } else {
                prev.push(k)
            },
            None => prev,
        }
    }
}

/// Every member of `matching_indices(n, p)` lies in `0..n` and satisfies `p`,
/// every such index is a member, and the members strictly increase.
pub proof fn lemma_matching_indices(n: nat, p: spec_fn(int) -> bool)
    ensures
        forall|k: int|
            0 <= k < matching_indices(n, p).len() ==> {
                let i = #[trigger] matching_indices(n, p)[k];
                0 <= i < n && p(i)
            },
        forall|i: int| 0 <= i < n && p(i) ==> #[trigger] matching_indices(n, p).contains(i),
        forall|k1: int, k2: int|
            0 <= k1 < k2 < matching_indices(n, p).len() ==> matching_indices(n, p)[k1]
                < matching_indices(n, p)[k2],
    decreases n,
{
    if n > 0 {
        lemma_matching_indices((n - 1) as nat, p);
        let prev = matching_indices((n - 1) as nat, p);
        if p(n - 1) {
            assert(prev.push(n - 1)[prev.len() as int] == n - 1);
        }
        assert forall|i: int| 0 <= i < n && p(i) implies #[trigger] matching_indices(
            n,
            p,
        ).contains(i) by {
            if i < n - 1 {
                assert(prev.contains(i));
                let k = choose|k: int| 0 <= k < prev.len() && prev[k] == i;
                assert(matching_indices(n, p)[k] == i);
            } else {
                assert(matching_indices(n, p)[prev.len() as int] == i);
            }
        }
    }
}

/// The keys of `distinct_keys(keys)` are pairwise different, each is held
/// by some entry of `keys`, and each key held by an entry occurs among them.
pub proof fn lemma_distinct_keys(keys: Seq<Option<i64>>)
    ensures
        forall|a: int, b: int|
            0 <= a < b < distinct_keys(keys).len() ==> distinct_keys(keys)[a] != distinct_keys(
                keys,
            )[b],
        forall|a: int|
            0 <= a < distinct_keys(keys).len() ==> keys.contains(
                Some(#[trigger] distinct_keys(keys)[a]),
            ),
        forall|i: int|
            0 <= i < keys.len() && (#[trigger] keys[i]) is Some ==> distinct_keys(keys).contains(
                keys[i]->0,
            ),
    decreases keys.len(),
{
    if keys.len() > 0 {
        let init = keys.drop_last();
        lemma_distinct_keys(init);
        let prev = distinct_keys(init);
        assert forall|a: int| 0 <= a < distinct_keys(keys).len() implies keys.contains(
            Some(#[trigger] distinct_keys(keys)[a]),
        ) by {
            if a < prev.len() {
                assert(init.contains(Some(prev[a])));
                let i = choose|i: int| 0 <= i < init.len() && init[i] == Some(prev[a]);
                assert(keys[i] == Some(prev[a]));
            } else {
                assert(keys[keys.len() - 1] == keys.last());
            }
        }
        assert forall|i: int|
            0 <= i < keys.len() && (#[trigger] keys[i]) is Some implies distinct_keys(
            keys,
        ).contains(keys[i]->0) by {
            let k = keys[i]->0;
            if i < keys.len() - 1 {
                assert(init[i] == keys[i]);
                assert(prev.contains(k));
                let a = choose|a: int| 0 <= a < prev.len() && prev[a] == k;
                assert(distinct_keys(keys)[a] == k);
            } else if !prev.contains(k) {
                assert(distinct_keys(keys)[prev.len() as int] == k);
            }
        }
    }
}

/// Whether `s` occurs in `v`.
pub fn contains_string(v: &[String], s: &String) -> (r: bool)
    ensures
        r == views(v@).contains(s@),
{
    let mut i: usize = 0;
    while i < v.len()
        invariant
            i <= v.len(),
            forall|j: int| 0 <= j < i ==> v@[j]@ != s@,
        decreases v.len() - i,
    {
        if v[i] == *s {
            assert(views(v@)[i as int] == s@);
            return true;
        }
        i = i + 1;
    }
    assert forall|j: int| 0 <= j < views(v@).len() implies views(v@)[j] != s@ by {
        assert(v@[j]@ != s@);
    }
    false
}

/// The strings held by the `Some` entries of `v`, in order.
pub fn collect_some_strings(v: &[Option<String>]) -> (r: Vec<String>)
    ensures
        views(r@) == some_views(v@),
{
    let ghost mapped = v@.map_values(|o: Option<String>| opt_view(o));
    let mut r: Vec<String> = Vec::new();
    let mut i: usize = 0;
    while i < v.len()
        invariant
            i <= v.len(),
            mapped == v@.map_values(|o: Option<String>| opt_view(o)),
            views(r@) == somes(mapped.take(i as int)),
        decreases v.len() - i,
    {
        assert(mapped.take(i as int + 1).drop_last() == mapped.take(i as int));
        match &v[i] {
            Some(s) => {
                r.push(s.clone());
            },
            None => {},
        }
        assert(views(r@) =~= somes(mapped.take(i as int + 1)));
        i = i + 1;
    }
    assert(mapped.take(v.len() as int) == mapped);
    r
}

/// One group of a grouping by key: the key and the indices that carry it.
pub struct KeyGroup {
    pub key: i64,
    pub members: Vec<usize>,
}

/// The indices of the entries of `keys` that hold `key`, in increasing order.
pub fn indices_with_key(keys: &[Option<i64>], key: i64) -> (r: Vec<usize>)
    ensures
        as_ints(r@) == members_with_key(keys@, key),
{
    let ghost p = |i: int| keys@[i] == Some(key);
    let mut r: Vec<usize> = Vec::new();
    let mut i: usize = 0;
    while i < keys.len()
        invariant
            i <= keys.len(),
            p == (|i: int| keys@[i] == Some(key)),
            as_ints(r@) == matching_indices(i as nat, p),
        decreases keys.len() - i,
    {
        if let Some(k) = keys[i] {
            if k == key {
                r.push(i);
            }
        }
        assert(as_ints(r@) =~= matching_indices(i as nat + 1, p));
        i = i + 1;
    }
    r
}

/// The keys held by `keys`, each once, in the order of their first occurrence.
pub fn first_occurrences(keys: &[Option<i64>]) -> (r: Vec<i64>)
    ensures
        r@ == distinct_keys(keys@),
{
    let mut r: Vec<i64> = Vec::new();
    let mut i: usize = 0;
    while i < keys.len()
        invariant
            i <= keys.len(),
            r@ == distinct_keys(keys@.take(i as int)),
        decreases keys.len() - i,
    {
        assert(keys@.take(i as int + 1).drop_last() == keys@.take(i as int));
        if let Some(k) = keys[i] {
            let mut j: usize = 0;
            let mut seen = false;
            while j < r.len()
                invariant
                    j <= r.len(),
                    seen <==> exists|m: int| 0 <= m < j && r@[m] == k,
                decreases r.len() - j,
            {
                if r[j] == k {
                    seen = true;
                }
                j = j + 1;
            }
            assert(seen == r@.contains(k));
            if !seen {
                r.push(k);
            }
        }
        i = i + 1;
    }
    assert(keys@.take(keys.len() as int) == keys@);
    r
}

/// Groups the indices of `keys` by the key their entry holds: one group per
/// key, in the order in which the keys first occur, each holding, in
/// increasing order, every index whose entry holds its key. Entries without a
/// key belong to no group.
pub fn group_by_key(keys: &[Option<i64>]) -> (r: Vec<KeyGroup>)
    ensures
        r@.len() == distinct_keys(keys@).len(),
        forall|g: int|
            0 <= g < r@.len() ==> {
                &&& (#[trigger] r@[g]).key == distinct_keys(keys@)[g]
                &&& as_ints(r@[g].members@) == members_with_key(keys@, distinct_keys(keys@)[g])
            },
{
    let distinct = first_occurrences(keys);
    let mut r: Vec<KeyGroup> = Vec::new();
    let mut g: usize = 0;
    while g < distinct.len()
        invariant
            g <= distinct.len(),
            distinct@ == distinct_keys(keys@),
            r@.len() == g,
            forall|h: int|
                0 <= h < g ==> {
                    &&& (#[trigger] r@[h]).key == distinct_keys(keys@)[h]
                    &&& as_ints(r@[h].members@) == members_with_key(keys@, distinct_keys(keys@)[h])
                },
        decreases distinct.len() - g,
    {
        let key = distinct[g];
        let members = indices_with_key(keys, key);
        r.push(KeyGroup { key, members });
        g = g + 1;
    }
    r
}

/// A selection of indices below `n` has at most `n` members.
pub proof fn lemma_matching_indices_len(n: nat, p: spec_fn(int) -> bool)
    ensures
        matching_indices(n, p).len() <= n,
    decreases n,
{
    if n > 0 {
        lemma_matching_indices_len((n - 1) as nat, p);
    }
}

/// There are no more distinct keys than entries.
pub proof fn lemma_distinct_keys_len(keys: Seq<Option<i64>>)
    ensures
        distinct_keys(keys).len() <= keys.len(),
    decreases keys.len(),
{
    if keys.len() > 0 {
        lemma_distinct_keys_len(keys.drop_last());
    }
}

} // verus!
