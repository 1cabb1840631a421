use vstd::prelude::*;

verus! {

/// Keys of the entries are pairwise distinct.
pub open spec fn distinct_keys<V>(s: Seq<(Seq<char>, V)>) -> bool {
    forall|i: int, j: int|
        0 <= i < s.len() && 0 <= j < s.len() && #[trigger] s[i].0 == #[trigger] s[j].0 ==> i == j
}

/// The finite map that a sequence of (key, value) entries stands for.
pub open spec fn table_map<V>(s: Seq<(Seq<char>, V)>) -> Map<Seq<char>, V> {
    Map::new(
        |k: Seq<char>| exists|i: int| 0 <= i < s.len() && #[trigger] s[i].0 == k,
        |k: Seq<char>| s[choose|i: int| 0 <= i < s.len() && #[trigger] s[i].0 == k].1,
    )
}

pub proof fn lemma_entry_in_map<V>(s: Seq<(Seq<char>, V)>, i: int)
    requires
        distinct_keys(s),
        0 <= i < s.len(),
    ensures
        table_map(s).contains_key(s[i].0),
        table_map(s)[s[i].0] == s[i].1,
{
    let k = s[i].0;
    assert(exists|j: int| 0 <= j < s.len() && #[trigger] s[j].0 == k);
    let j = choose|j: int| 0 <= j < s.len() && #[trigger] s[j].0 == k;
    assert(s[j].0 == s[i].0);
}

pub proof fn lemma_absent_key<V>(s: Seq<(Seq<char>, V)>, k: Seq<char>)
    requires
        forall|i: int| 0 <= i < s.len() ==> #[trigger] s[i].0 != k,
    ensures
        !table_map(s).contains_key(k),
{
}

pub proof fn lemma_push_new_key<V>(s: Seq<(Seq<char>, V)>, k: Seq<char>, v: V)
    requires
        distinct_keys(s),
        !table_map(s).contains_key(k),
    ensures
        distinct_keys(s.push((k, v))),
        table_map(s.push((k, v))) == table_map(s).insert(k, v),
{
    let t = s.push((k, v));
    assert forall|i: int| 0 <= i < s.len() implies #[trigger] s[i].0 != k by {
        if s[i].0 == k {
            assert(table_map(s).contains_key(k));
        }
    }
    assert forall|i: int, j: int|
        0 <= i < t.len() && 0 <= j < t.len() && #[trigger] t[i].0 == #[trigger] t[j].0 implies i
        == j by {
        if i < s.len() && j < s.len() {
            assert(s[i].0 == s[j].0);
        }
    }
    assert forall|key: Seq<char>| #[trigger]
        table_map(t).contains_key(key) == table_map(s).insert(k, v).contains_key(key) by {
        if table_map(s).contains_key(key) {
            let i = choose|i: int| 0 <= i < s.len() && #[trigger] s[i].0 == key;
            assert(t[i].0 == key);
        }
        if key == k {
            assert(t[s.len() as int].0 == key);
        }
        if table_map(t).contains_key(key) && key != k {
            let i = choose|i: int| 0 <= i < t.len() && #[trigger] t[i].0 == key;
            assert(i < s.len());
            assert(s[i].0 == key);
        }
    }
    assert forall|key: Seq<char>| #[trigger] table_map(t).contains_key(key) implies table_map(t)[key]
        == table_map(s).insert(k, v)[key] by {
        if key == k {
            lemma_entry_in_map(t, s.len() as int);
            assert(t[s.len() as int].0 == k);
        } else {
            let i = choose|i: int| 0 <= i < s.len() && #[trigger] s[i].0 == key;
            lemma_entry_in_map(t, i);
            lemma_entry_in_map(s, i);
            assert(t[i] == s[i]);
        }
    }
    assert(table_map(t) =~= table_map(s).insert(k, v));
}

/// No two entries of `s` have keys with the same view.
pub open spec fn keys_unique<V>(s: Seq<(String, V)>) -> bool {
    forall|i: int, j: int|
        0 <= i < s.len() && 0 <= j < s.len() && #[trigger] s[i].0@ == #[trigger] s[j].0@ ==> i == j
}

/// A view `t` that keeps the key views of `s`, entry by entry, has distinct
/// keys exactly when `s` does.
pub proof fn lemma_keys_unique_view<V, W>(s: Seq<(String, V)>, t: Seq<(Seq<char>, W)>)
    requires
        t.len() == s.len(),
        forall|i: int| 0 <= i < s.len() ==> #[trigger] t[i].0 == s[i].0@,
    ensures
        distinct_keys(t) == keys_unique(s),
{
    if keys_unique(s) {
        assert forall|a: int, b: int|
            0 <= a < t.len() && 0 <= b < t.len() && #[trigger] t[a].0 == #[trigger] t[b].0 implies a
            == b by {
            assert(s[a].0@ == s[b].0@);
        }
    } else {
        let (a, b) = choose|a: int, b: int|
            0 <= a < s.len() && 0 <= b < s.len() && #[trigger] s[a].0@ == #[trigger] s[b].0@ && a
                != b;
        assert(t[a].0 == t[b].0);
    }
}

/// Whether no two entries share a key.
pub fn keys_distinct<V>(entries: &Vec<(String, V)>) -> (r: bool)
    ensures
        r == keys_unique(entries@),
{
    let mut i: usize = 0;
    while i < entries.len()
        invariant
            i <= entries@.len(),
            forall|a: int, b: int|
                0 <= a < i && 0 <= b < entries@.len() && #[trigger] entries@[a].0@
                    == #[trigger] entries@[b].0@ ==> a == b,
        decreases entries@.len() - i,
    {
        let mut j: usize = 0;
        while j < entries.len()
            invariant
                i < entries@.len(),
                j <= entries@.len(),
                forall|b: int|
                    0 <= b < j && #[trigger] entries@[b].0@ == entries@[i as int].0@ ==> b == i,
            decreases entries@.len() - j,
        {
            if j != i && entries[j].0 == entries[i].0 {
                assert(entries@[i as int].0@ == entries@[j as int].0@);
                return false;
            }
            j = j + 1;
        }
        i = i + 1;
    }
    true
}

/// Position of the entry with key `k`, if there is one.
pub fn find_key<V>(entries: &Vec<(String, V)>, k: &String) -> (r: Option<usize>)
    ensures
        match r {
            Some(i) => i < entries@.len() && entries@[i as int].0@ == k@,
            None => forall|i: int| 0 <= i < entries@.len() ==> #[trigger] entries@[i].0@ != k@,
        },
{
    let mut i: usize = 0;
    while i < entries.len()
        invariant
            i <= entries@.len(),
            forall|j: int| 0 <= j < i ==> #[trigger] entries@[j].0@ != k@,
        decreases entries@.len() - i,
    {
        if entries[i].0 == *k {
            return Some(i);
        }
        i = i + 1;
    }
    None
}

} // verus!
