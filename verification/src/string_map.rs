//! A small map from strings to strings, kept as a list of pairs with
//! distinct keys. Its view is a mathematical map over character sequences.

use crate::text::{
    chars_lt, lemma_seq_lt_irreflexive, lemma_seq_lt_total, lemma_seq_lt_transitive, seq_lt,
    to_chars,
};
use vstd::prelude::*;

verus! {

/// The map that a list of pairs stands for; a later pair overrides an
/// earlier one with the same key.
pub open spec fn pairs_map(s: Seq<(String, String)>) -> Map<Seq<char>, Seq<char>>
    decreases s.len(),
{
    if s.len() == 0 {
        Map::empty()
    } else {
        pairs_map(s.drop_last()).insert(s.last().0@, s.last().1@)
    }
}

/// No two pairs of the list share a key.
pub open spec fn distinct_keys(s: Seq<(String, String)>) -> bool {
    forall|i: int, j: int| 0 <= i < j < s.len() ==> #[trigger] s[i].0@ != #[trigger] s[j].0@
}

/// The keys of the list ascend strictly, in the order of `str`.
pub open spec fn sorted_by_key(s: Seq<(String, String)>) -> bool {
    forall|i: int, j: int| 0 <= i < j < s.len() ==> seq_lt(#[trigger] s[i].0@, #[trigger] s[j].0@)
}

/// Some pair of the list has the key `k`.
pub open spec fn has_key(s: Seq<(String, String)>, k: Seq<char>) -> bool {
    exists|i: int| 0 <= i < s.len() && #[trigger] s[i].0@ == k
}

/// The domain of `pairs_map(s)` is the set of keys that occur in `s`.
pub proof fn lemma_pairs_map_dom(s: Seq<(String, String)>)
    ensures
        pairs_map(s).dom().finite(),
        forall|k: Seq<char>| #[trigger] pairs_map(s).dom().contains(k) <==> has_key(s, k),
    decreases s.len(),
{
    if s.len() > 0 {
        let t = s.drop_last();
        lemma_pairs_map_dom(t);
        assert forall|k: Seq<char>| #[trigger]
            pairs_map(s).dom().contains(k) <==> has_key(s, k) by {
            if has_key(s, k) {
                let i = choose|i: int| 0 <= i < s.len() && #[trigger] s[i].0@ == k;
                if i < t.len() {
                    assert(t[i].0@ == k);
                    assert(has_key(t, k));
                }
            }
            if pairs_map(s).dom().contains(k) {
                if k == s.last().0@ {
                    assert(s[s.len() - 1].0@ == k);
                } else {
                    assert(has_key(t, k));
                    let i = choose|i: int| 0 <= i < t.len() && #[trigger] t[i].0@ == k;
                    assert(s[i].0@ == k);
                }
            }
        }
    }
}

/// With distinct keys, each pair of the list is an entry of the map.
pub proof fn lemma_pairs_map_entries(s: Seq<(String, String)>)
    requires
        distinct_keys(s),
    ensures
        forall|i: int|
            0 <= i < s.len() ==> pairs_map(s).dom().contains(#[trigger] s[i].0@) && pairs_map(
                s,
            )[s[i].0@] == s[i].1@,
    decreases s.len(),
{
    if s.len() > 0 {
        let t = s.drop_last();
        assert(distinct_keys(t)) by {
            assert forall|i: int, j: int| 0 <= i < j < t.len() implies #[trigger] t[i].0@
                != #[trigger] t[j].0@ by {
                assert(s[i].0@ != s[j].0@);
            }
        }
        lemma_pairs_map_entries(t);
        assert forall|i: int| 0 <= i < s.len() implies pairs_map(s).dom().contains(
            #[trigger] s[i].0@,
        ) && pairs_map(s)[s[i].0@] == s[i].1@ by {
            if i < t.len() {
                assert(t[i].0@ == s[i].0@);
                assert(s[i].0@ != s[s.len() - 1].0@);
            }
        }
    }
}

/// A map from strings to strings in which no key occurs twice.
#[derive(Debug)]
pub struct StringMap {
    entries: Vec<(String, String)>,
}

impl View for StringMap {
    type V = Map<Seq<char>, Seq<char>>;

    closed spec fn view(&self) -> Map<Seq<char>, Seq<char>> {
        pairs_map(self.entries@)
    }
}

impl StringMap {
    #[verifier::type_invariant]
    spec fn keys_are_distinct(&self) -> bool {
        distinct_keys(self.entries@)
    }

    /// An empty map.
    pub fn new() -> (m: StringMap)
        ensures
            m@ == Map::<Seq<char>, Seq<char>>::empty(),
    {
        StringMap { entries: Vec::new() }
    }

    /// The index of the pair with the given key, if there is one.
    fn position(&self, key: &String) -> (r: Option<usize>)
        ensures
            match r {
                Some(i) => i < self.entries@.len() && self.entries@[i as int].0@ == key@,
                None => !has_key(self.entries@, key@),
            },
    {
        let mut i: usize = 0;
        while i < self.entries.len()
            invariant
                i <= self.entries@.len(),
                forall|j: int| 0 <= j < i ==> (#[trigger] self.entries@[j]).0@ != key@,
            decreases self.entries@.len() - i,
        {
            if self.entries[i].0 == *key {
                return Some(i);
            }
            i += 1;
        }
        None
    }

    /// The number of entries.
    pub fn len(&self) -> (n: usize)
        ensures
            n == self@.len(),
    {
        proof {
            use_type_invariant(self);
            lemma_len_is_pairs(self.entries@);
        }
        self.entries.len()
    }

    /// Whether the map has no entry.
    pub fn is_empty(&self) -> (b: bool)
        ensures
            b == (self@.len() == 0),
    {
        self.len() == 0
    }

    /// Whether the map has an entry for `key`.
    pub fn contains_key(&self, key: &str) -> (b: bool)
        ensures
            b == self@.dom().contains(key@),
    {
        let owned = key.to_owned();
        proof {
            lemma_pairs_map_dom(self.entries@);
        }
        match self.position(&owned) {
            Some(i) => {
                assert(has_key(self.entries@, key@));
                true
            },
            None => false,
        }
    }

    /// The value stored for `key`, if there is one.
    pub fn get(&self, key: &str) -> (r: Option<&String>)
        ensures
            match r {
                Some(v) => self@.dom().contains(key@) && self@[key@] == v@,
                None => !self@.dom().contains(key@),
            },
    {
        let owned = key.to_owned();
        proof {
            use_type_invariant(self);
            lemma_pairs_map_dom(self.entries@);
            lemma_pairs_map_entries(self.entries@);
        }
        match self.position(&owned) {
            Some(i) => {
                assert(has_key(self.entries@, key@));
                Some(&self.entries[i].1)
            },
            None => None,
        }
    }

    /// Stores `value` under `key`, replacing what was stored there.
    pub fn insert(&mut self, key: String, value: String)
        ensures
            final(self)@ == old(self)@.insert(key@, value@),
    {
        proof {
            use_type_invariant(&*self);
        }
        let ghost before = self.entries@;
        let found = self.position(&key);
        let mut entries: Vec<(String, String)> = Vec::new();
        core::mem::swap(&mut self.entries, &mut entries);
        match found {
            Some(i) => {
                proof {
                    lemma_update_is_insert(before, i as int, (key, value));
                }
                entries.set(i, (key, value));
            },
            None => {
                proof {
                    lemma_push_keeps_distinct(before, (key, value));
                }
                entries.push((key, value));
                assert(entries@.drop_last() == before);
            },
        }
        self.entries = entries;
    }

    /// Adds every entry of `other`; where both have a key, `other` wins.
    pub fn extend(&mut self, other: &StringMap)
        ensures
            final(self)@ == old(self)@.union_prefer_right(other@),
    {
        let ghost start = self@;
        let mut i: usize = 0;
        assert(other.entries@.take(0) == Seq::<(String, String)>::empty());
        assert(self@ == start.union_prefer_right(pairs_map(other.entries@.take(0))));
        while i < other.entries.len()
            invariant
                i <= other.entries@.len(),
                self@ == start.union_prefer_right(pairs_map(other.entries@.take(i as int))),
            decreases other.entries@.len() - i,
        {
            let key = other.entries[i].0.clone();
            let value = other.entries[i].1.clone();
            proof {
                let next = other.entries@.take(i + 1);
                assert(next.drop_last() == other.entries@.take(i as int));
                assert(next.last() == other.entries@[i as int]);
                assert(start.union_prefer_right(pairs_map(next)) == start.union_prefer_right(
                    pairs_map(other.entries@.take(i as int)),
                ).insert(key@, value@));
            }
            self.insert(key, value);
            i += 1;
        }
        assert(other.entries@.take(i as int) == other.entries@);
    }

    /// The entries in ascending order of their keys.
    pub fn sorted_pairs(&self) -> (v: Vec<(String, String)>)
        ensures
            sorted_by_key(v@),
            distinct_keys(v@),
            pairs_map(v@) == self@,
    {
        proof {
            use_type_invariant(self);
        }
        let mut v: Vec<(String, String)> = Vec::new();
        let mut i: usize = 0;
        assert(self.entries@.take(0) == Seq::<(String, String)>::empty());
        while i < self.entries.len()
            invariant
                i <= self.entries@.len(),
                distinct_keys(self.entries@),
                sorted_by_key(v@),
                distinct_keys(v@),
                pairs_map(v@) == pairs_map(self.entries@.take(i as int)),
            decreases self.entries@.len() - i,
        {
            let key = self.entries[i].0.clone();
            let value = self.entries[i].1.clone();
            let key_chars = to_chars(key.as_str());
            let ghost done = self.entries@.take(i as int);
            let ghost next = self.entries@.take(i + 1);
            proof {
                assert(next.drop_last() == done);
                assert(next.last() == self.entries@[i as int]);
                lemma_pairs_map_dom(v@);
                lemma_pairs_map_dom(done);
                if has_key(done, key@) {
                    let j = choose|j: int| 0 <= j < done.len() && #[trigger] done[j].0@ == key@;
                    assert(self.entries@[j].0@ != self.entries@[i as int].0@);
                }
                assert(!pairs_map(v@).dom().contains(key@));
                assert(!has_key(v@, key@));
            }
            let mut p: usize = 0;
            while p < v.len() && chars_lt(&to_chars(v[p].0.as_str()), &key_chars)
                invariant
                    p <= v@.len(),
                    key_chars@ == key@,
                    forall|j: int| 0 <= j < p ==> seq_lt((#[trigger] v@[j]).0@, key@),
                decreases v@.len() - p,
            {
                p += 1;
            }
            proof {
                lemma_insert_sorted(v@, p as int, (key, value));
            }
            v.insert(p, (key, value));
            i += 1;
        }
        assert(self.entries@.take(i as int) == self.entries@);
        v
    }
}

impl Clone for StringMap {
    fn clone(&self) -> (m: StringMap)
        ensures
            m@ == self@,
    {
        let mut m = StringMap::new();
        m.extend(self);
        assert(m@ =~= self@);
        m
    }
}

/// With distinct keys the map has as many entries as the list has pairs.
proof fn lemma_len_is_pairs(s: Seq<(String, String)>)
    requires
        distinct_keys(s),
    ensures
        pairs_map(s).dom().finite(),
        pairs_map(s).len() == s.len(),
    decreases s.len(),
{
    lemma_pairs_map_dom(s);
    if s.len() > 0 {
        let t = s.drop_last();
        assert(distinct_keys(t)) by {
            assert forall|i: int, j: int| 0 <= i < j < t.len() implies #[trigger] t[i].0@
                != #[trigger] t[j].0@ by {
                assert(s[i].0@ != s[j].0@);
            }
        }
        lemma_len_is_pairs(t);
        lemma_pairs_map_dom(t);
        if has_key(t, s.last().0@) {
            let i = choose|i: int| 0 <= i < t.len() && #[trigger] t[i].0@ == s.last().0@;
            assert(s[i].0@ != s[s.len() - 1].0@);
        }
        assert(!pairs_map(t).dom().contains(s.last().0@));
    }
}

/// Replacing the pair at the place of its own key is an insertion.
proof fn lemma_update_is_insert(s: Seq<(String, String)>, i: int, p: (String, String))
    requires
        distinct_keys(s),
        0 <= i < s.len(),
        s[i].0@ == p.0@,
    ensures
        distinct_keys(s.update(i, p)),
        pairs_map(s.update(i, p)) == pairs_map(s).insert(p.0@, p.1@),
{
    let u = s.update(i, p);
    assert(distinct_keys(u)) by {
        assert forall|a: int, b: int| 0 <= a < b < u.len() implies #[trigger] u[a].0@
            != #[trigger] u[b].0@ by {
            assert(s[a].0@ != s[b].0@);
        }
    }
    lemma_pairs_map_dom(s);
    lemma_pairs_map_dom(u);
    lemma_pairs_map_entries(s);
    lemma_pairs_map_entries(u);
    let m = pairs_map(s).insert(p.0@, p.1@);
    assert forall|k: Seq<char>| pairs_map(u).dom().contains(k) <==> m.dom().contains(k) by {
        if has_key(u, k) {
            let a = choose|a: int| 0 <= a < u.len() && #[trigger] u[a].0@ == k;
            assert(s[a].0@ == k);
        }
        if has_key(s, k) {
            let a = choose|a: int| 0 <= a < s.len() && #[trigger] s[a].0@ == k;
            assert(u[a].0@ == k);
        }
        if k == p.0@ {
            assert(u[i].0@ == k);
        }
    }
    assert forall|k: Seq<char>| pairs_map(u).dom().contains(k) implies pairs_map(u)[k] == m[k] by {
        let a = choose|a: int| 0 <= a < u.len() && #[trigger] u[a].0@ == k;
        assert(pairs_map(u)[u[a].0@] == u[a].1@);
        if a != i {
            assert(s[a].0@ == k);
            assert(pairs_map(s)[s[a].0@] == s[a].1@);
            if a < i {
                assert(s[a].0@ != s[i].0@);
            } else {
                assert(s[i].0@ != s[a].0@);
            }
        }
    }
    assert(pairs_map(u) =~= m);
}

/// Appending a pair with a fresh key keeps the keys distinct.
proof fn lemma_push_keeps_distinct(s: Seq<(String, String)>, p: (String, String))
    requires
        distinct_keys(s),
        !has_key(s, p.0@),
    ensures
        distinct_keys(s.push(p)),
{
    let u = s.push(p);
    assert forall|a: int, b: int| 0 <= a < b < u.len() implies #[trigger] u[a].0@
        != #[trigger] u[b].0@ by {
        if b < s.len() {
            assert(s[a].0@ != s[b].0@);
        } else {
            assert(s[a].0@ == u[a].0@);
        }
    }
}

/// Inserting a pair with a fresh key at the place that its key asks for
/// keeps the list sorted and adds the pair to the map.
proof fn lemma_insert_sorted(s: Seq<(String, String)>, p: int, e: (String, String))
    requires
        sorted_by_key(s),
        distinct_keys(s),
        !has_key(s, e.0@),
        0 <= p <= s.len(),
        forall|j: int| 0 <= j < p ==> seq_lt((#[trigger] s[j]).0@, e.0@),
        p < s.len() ==> !seq_lt(s[p].0@, e.0@),
    ensures
        sorted_by_key(s.insert(p, e)),
        distinct_keys(s.insert(p, e)),
        pairs_map(s.insert(p, e)) == pairs_map(s).insert(e.0@, e.1@),
{
    let u = s.insert(p, e);
    assert forall|a: int, b: int| 0 <= a < b < u.len() implies seq_lt(
        #[trigger] u[a].0@,
        #[trigger] u[b].0@,
    ) by {
        if b < p {
            assert(seq_lt(s[a].0@, s[b].0@));
        } else if b == p {
            assert(seq_lt(s[a].0@, e.0@));
        } else if a == p {
            // e before s[b - 1], where p <= b - 1
            assert(s[p].0@ != e.0@) by {
                if s[p].0@ == e.0@ {
                    assert(has_key(s, e.0@));
                }
            }
            lemma_seq_lt_total(s[p].0@, e.0@);
            if b - 1 > p {
                assert(seq_lt(s[p].0@, s[b - 1].0@));
                lemma_seq_lt_transitive(e.0@, s[p].0@, s[b - 1].0@);
            }
        } else if a < p {
            assert(seq_lt(s[a].0@, s[b - 1].0@));
        } else {
            assert(seq_lt(s[a - 1].0@, s[b - 1].0@));
        }
    }
    assert forall|a: int, b: int| 0 <= a < b < u.len() implies #[trigger] u[a].0@
        != #[trigger] u[b].0@ by {
        assert(seq_lt(u[a].0@, u[b].0@));
        lemma_seq_lt_irreflexive(u[a].0@);
    }
    lemma_pairs_map_dom(s);
    lemma_pairs_map_dom(u);
    lemma_pairs_map_entries(s);
    lemma_pairs_map_entries(u);
    let m = pairs_map(s).insert(e.0@, e.1@);
    assert forall|k: Seq<char>| pairs_map(u).dom().contains(k) <==> m.dom().contains(k) by {
        if has_key(u, k) {
            let a = choose|a: int| 0 <= a < u.len() && #[trigger] u[a].0@ == k;
            if a < p {
                assert(s[a].0@ == k);
            } else if a > p {
                assert(s[a - 1].0@ == k);
            }
        }
        if has_key(s, k) {
            let a = choose|a: int| 0 <= a < s.len() && #[trigger] s[a].0@ == k;
            if a < p {
                assert(u[a].0@ == k);
            } else {
                assert(u[a + 1].0@ == k);
            }
        }
        if k == e.0@ {
            assert(u[p].0@ == k);
        }
    }
    assert forall|k: Seq<char>| pairs_map(u).dom().contains(k) implies pairs_map(u)[k] == m[k] by {
        let a = choose|a: int| 0 <= a < u.len() && #[trigger] u[a].0@ == k;
        assert(pairs_map(u)[u[a].0@] == u[a].1@);
        if a < p {
            assert(s[a].0@ == k);
            assert(pairs_map(s)[s[a].0@] == s[a].1@);
            assert(has_key(s, k));
        } else if a > p {
            assert(s[a - 1].0@ == k);
            assert(pairs_map(s)[s[a - 1].0@] == s[a - 1].1@);
            assert(has_key(s, k));
        }
    }
    assert(pairs_map(u) =~= m);
}

/// A list whose keys ascend strictly has no key twice.
pub proof fn lemma_sorted_is_distinct(s: Seq<(String, String)>)
    requires
        sorted_by_key(s),
    ensures
        distinct_keys(s),
{
    assert forall|i: int, j: int| 0 <= i < j < s.len() implies #[trigger] s[i].0@
        != #[trigger] s[j].0@ by {
        assert(seq_lt(s[i].0@, s[j].0@));
        lemma_seq_lt_irreflexive(s[i].0@);
    }
}

/// The sorted list of a map is unique: two sorted lists that stand for the
/// same map hold the same keys and the same values, place by place.
pub proof fn lemma_sorted_pairs_are_unique(a: Seq<(String, String)>, b: Seq<(String, String)>)
    requires
        sorted_by_key(a),
        sorted_by_key(b),
        pairs_map(a) == pairs_map(b),
    ensures
        a.len() == b.len(),
        forall|i: int| 0 <= i < a.len() ==> (#[trigger] a[i]).0@ == b[i].0@ && a[i].1@ == b[i].1@,
    decreases a.len(),
{
    lemma_sorted_is_distinct(a);
    lemma_sorted_is_distinct(b);
    lemma_len_is_pairs(a);
    lemma_len_is_pairs(b);
    if a.len() > 0 {
        let n = a.len() - 1;
        lemma_pairs_map_dom(a);
        lemma_pairs_map_dom(b);
        lemma_pairs_map_entries(a);
        lemma_pairs_map_entries(b);
        let ka = a[n].0@;
        let kb = b[n].0@;
        if ka != kb {
            assert(has_key(b, ka)) by {
                assert(pairs_map(a).dom().contains(a[n].0@));
            }
            let j = choose|j: int| 0 <= j < b.len() && #[trigger] b[j].0@ == ka;
            assert(j != n);
            assert(seq_lt(b[j].0@, b[n].0@));
            assert(has_key(a, kb)) by {
                assert(pairs_map(b).dom().contains(b[n].0@));
            }
            let i = choose|i: int| 0 <= i < a.len() && #[trigger] a[i].0@ == kb;
            assert(i != n);
            assert(seq_lt(a[i].0@, a[n].0@));
            lemma_seq_lt_transitive(ka, kb, ka);
            lemma_seq_lt_irreflexive(ka);
        }
        assert(pairs_map(a)[a[n].0@] == a[n].1@);
        assert(pairs_map(b)[b[n].0@] == b[n].1@);
        let a0 = a.drop_last();
        let b0 = b.drop_last();
        assert(sorted_by_key(a0)) by {
            assert forall|i: int, j: int| 0 <= i < j < a0.len() implies seq_lt(
                #[trigger] a0[i].0@,
                #[trigger] a0[j].0@,
            ) by {
                assert(seq_lt(a[i].0@, a[j].0@));
            }
        }
        assert(sorted_by_key(b0)) by {
            assert forall|i: int, j: int| 0 <= i < j < b0.len() implies seq_lt(
                #[trigger] b0[i].0@,
                #[trigger] b0[j].0@,
            ) by {
                assert(seq_lt(b[i].0@, b[j].0@));
            }
        }
        lemma_pairs_map_dom(a0);
        lemma_pairs_map_dom(b0);
        assert(!has_key(a0, ka)) by {
            if has_key(a0, ka) {
                let i = choose|i: int| 0 <= i < a0.len() && #[trigger] a0[i].0@ == ka;
                assert(a[i].0@ != a[n].0@);
            }
        }
        assert(!has_key(b0, kb)) by {
            if has_key(b0, kb) {
                let i = choose|i: int| 0 <= i < b0.len() && #[trigger] b0[i].0@ == kb;
                assert(b[i].0@ != b[n].0@);
            }
        }
        assert(pairs_map(a0) =~= pairs_map(a).remove(ka));
        assert(pairs_map(b0) =~= pairs_map(b).remove(kb));
        lemma_sorted_pairs_are_unique(a0, b0);
        assert forall|i: int| 0 <= i < a.len() implies (#[trigger] a[i]).0@ == b[i].0@ && a[i].1@
            == b[i].1@ by {
            if i < n {
                assert(a0[i].0@ == b0[i].0@ && a0[i].1@ == b0[i].1@);
            }
        }
    }
}

} // verus!
