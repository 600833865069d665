//! Storage tables: a `Vec` of key/value pairs with unique keys, seen as a `Map`.

use vstd::prelude::*;
use crate::types::TableKey;

verus! {

/// No key occurs twice.
pub open spec fn keys_unique<K, V>(s: Seq<(K, V)>) -> bool {
    forall|i: int, j: int| 0 <= i < s.len() && 0 <= j < s.len() && i != j ==> s[i].0 != s[j].0
}

/// The map that a table stands for.
pub open spec fn table_view<K, V>(s: Seq<(K, V)>) -> Map<K, V>
    decreases s.len(),
{
    if s.len() == 0 {
        Map::empty()
    } else {
        table_view(s.drop_last()).insert(s.last().0, s.last().1)
    }
}

pub proof fn lemma_table_dom<K, V>(s: Seq<(K, V)>, k: K)
    ensures
        table_view(s).contains_key(k) <==> exists|i: int| 0 <= i < s.len() && s[i].0 == k,
    decreases s.len(),
{
    if s.len() > 0 {
        lemma_table_dom(s.drop_last(), k);
        if table_view(s).contains_key(k) && s.last().0 != k {
            let i = choose|i: int| 0 <= i < s.len() - 1 && s.drop_last()[i].0 == k;
            assert(s[i].0 == k);
        }
        if exists|i: int| 0 <= i < s.len() && s[i].0 == k {
            let i = choose|i: int| 0 <= i < s.len() && s[i].0 == k;
            if i < s.len() - 1 {
                assert(s.drop_last()[i].0 == k);
            }
        }
    }
}

pub proof fn lemma_table_index<K, V>(s: Seq<(K, V)>, i: int)
    requires
        keys_unique(s),
        0 <= i < s.len(),
    ensures
        table_view(s).contains_key(s[i].0),
        table_view(s)[s[i].0] == s[i].1,
    decreases s.len(),
{
    if i < s.len() - 1 {
        let t = s.drop_last();
        assert(keys_unique(t));
        assert(t[i] == s[i]);
        lemma_table_index(t, i);
        assert(s.last().0 != s[i].0);
    }
}

pub proof fn lemma_table_absent<K, V>(s: Seq<(K, V)>, k: K)
    requires
        forall|i: int| 0 <= i < s.len() ==> s[i].0 != k,
    ensures
        !table_view(s).contains_key(k),
{
    lemma_table_dom(s, k);
}

pub proof fn lemma_table_push<K, V>(s: Seq<(K, V)>, k: K, v: V)
    requires
        keys_unique(s),
        !table_view(s).contains_key(k),
    ensures
        keys_unique(s.push((k, v))),
        table_view(s.push((k, v))) == table_view(s).insert(k, v),
{
    let t = s.push((k, v));
    assert(t.drop_last() =~= s);
    assert forall|i: int| 0 <= i < s.len() implies s[i].0 != k by {
        lemma_table_dom(s, k);
    }
}

pub proof fn lemma_table_update<K, V>(s: Seq<(K, V)>, i: int, v: V)
    requires
        keys_unique(s),
        0 <= i < s.len(),
    ensures
        keys_unique(s.update(i, (s[i].0, v))),
        table_view(s.update(i, (s[i].0, v))) == table_view(s).insert(s[i].0, v),
    decreases s.len(),
{
    let t = s.update(i, (s[i].0, v));
    let k = s[i].0;
    assert(keys_unique(t)) by {
        assert forall|a: int, b: int| 0 <= a < t.len() && 0 <= b < t.len() && a != b implies t[a].0
            != t[b].0 by {
            assert(t[a].0 == s[a].0);
            assert(t[b].0 == s[b].0);
        }
    }
    if i == s.len() - 1 {
        assert(t.drop_last() =~= s.drop_last());
        assert(table_view(t) =~= table_view(s).insert(k, v));
    } else {
        let sd = s.drop_last();
        assert(keys_unique(sd));
        lemma_table_update(sd, i, v);
        assert(t.drop_last() =~= sd.update(i, (sd[i].0, v)));
        assert(s.last().0 != k);
        assert(table_view(t) =~= table_view(s).insert(k, v));
    }
}

pub proof fn lemma_table_remove<K, V>(s: Seq<(K, V)>, i: int)
    requires
        keys_unique(s),
        0 <= i < s.len(),
    ensures
        keys_unique(s.remove(i)),
        table_view(s.remove(i)) == table_view(s).remove(s[i].0),
    decreases s.len(),
{
    let t = s.remove(i);
    let k = s[i].0;
    assert(keys_unique(t)) by {
        assert forall|a: int, b: int| 0 <= a < t.len() && 0 <= b < t.len() && a != b implies t[a].0
            != t[b].0 by {
            let a2 = if a < i { a } else { a + 1 };
            let b2 = if b < i { b } else { b + 1 };
            assert(t[a] == s[a2]);
            assert(t[b] == s[b2]);
        }
    }
    if i == s.len() - 1 {
        assert(t =~= s.drop_last());
        assert forall|j: int| 0 <= j < t.len() implies t[j].0 != k by {
            assert(t[j] == s[j]);
        }
        lemma_table_absent(t, k);
        assert(table_view(t) =~= table_view(s).remove(k));
    } else {
        let sd = s.drop_last();
        assert(keys_unique(sd));
        lemma_table_remove(sd, i);
        assert(t.drop_last() =~= sd.remove(i));
        assert(t.last() == s.last());
        assert(s.last().0 != k);
        assert(table_view(t) =~= table_view(s).remove(k));
    }
}

/// Finds the position of a key in a table.
pub fn find_key<K: TableKey, V>(s: &Vec<(K, V)>, k: &K) -> (r: Option<usize>)
    ensures
        match r {
            Some(i) => i < s@.len() && s@[i as int].0 == *k,
            None => forall|i: int| 0 <= i < s@.len() ==> s@[i].0 != *k,
        },
{
    let mut i: usize = 0;
    while i < s.len()
        invariant
            0 <= i <= s@.len(),
            forall|j: int| 0 <= j < i ==> s@[j].0 != *k,
        decreases s@.len() - i,
    {
        if s[i].0.same(k) {
            return Some(i);
        }
        i = i + 1;
    }
    None
}

/// Looks a key up: the position of its entry, or `None` where the table has no entry for it.
pub fn lookup<K: TableKey, V>(s: &Vec<(K, V)>, k: &K) -> (r: Option<usize>)
    requires
        keys_unique(s@),
    ensures
        match r {
            Some(i) => i < s@.len() && s@[i as int].0 == *k && table_view(s@).contains_key(*k)
                && table_view(s@)[*k] == s@[i as int].1,
            None => !table_view(s@).contains_key(*k),
        },
{
    let r = find_key(s, k);
    proof {
        match r {
            Some(i) => lemma_table_index(s@, i as int),
            None => lemma_table_absent(s@, *k),
        }
    }
    r
}

} // verus!
