//! The tag set of a request: two maps from string to string, `tags` for
//! metrics and logs and `extra` for error reports. An entry with an empty
//! value is never stored.

use crate::json::{object, object_text, with_values};
use crate::string_map::{distinct_keys, pairs_map, sorted_by_key, StringMap};
use vstd::prelude::*;

verus! {

/// No entry of the map has an empty value.
pub open spec fn no_empty_values(m: Map<Seq<char>, Seq<char>>) -> bool {
    forall|k: Seq<char>| m.dom().contains(k) ==> (#[trigger] m[k]).len() > 0
}

/// No pair of the list has an empty value.
pub open spec fn no_empty_pair(s: Seq<(String, String)>) -> bool {
    forall|i: int| 0 <= i < s.len() ==> (#[trigger] s[i]).1@.len() > 0
}

/// What `m` becomes when `value` is offered under `key`: nothing changes
/// for an empty value, otherwise the entry is set.
pub open spec fn offer(m: Map<Seq<char>, Seq<char>>, key: Seq<char>, value: Seq<char>) -> Map<
    Seq<char>,
    Seq<char>,
> {
    if value.len() == 0 {
        m
    } else {
        m.insert(key, value)
    }
}

/// The map that results from offering the pairs of a list one after the
/// other to an empty map.
pub open spec fn offered_pairs(s: Seq<(String, String)>) -> Map<Seq<char>, Seq<char>>
    decreases s.len(),
{
    if s.len() == 0 {
        Map::empty()
    } else {
        offer(offered_pairs(s.drop_last()), s.last().0@, s.last().1@)
    }
}

/// Merging two maps without empty values, the right one taking precedence,
/// gives a map without empty values.
pub proof fn lemma_merge_stores_no_empty_value(
    left: Map<Seq<char>, Seq<char>>,
    right: Map<Seq<char>, Seq<char>>,
)
    requires
        no_empty_values(left),
        no_empty_values(right),
    ensures
        no_empty_values(left.union_prefer_right(right)),
{
    let m = left.union_prefer_right(right);
    assert forall|k: Seq<char>| m.dom().contains(k) implies (#[trigger] m[k]).len() > 0 by {
        if right.dom().contains(k) {
            assert(right[k].len() > 0);
        } else {
            assert(left[k].len() > 0);
        }
    }
}

/// Offering a value to a map without empty values gives a map without
/// empty values.
pub proof fn lemma_offer_stores_no_empty_value(
    m: Map<Seq<char>, Seq<char>>,
    key: Seq<char>,
    value: Seq<char>,
)
    requires
        no_empty_values(m),
    ensures
        no_empty_values(offer(m, key, value)),
{
    let r = offer(m, key, value);
    assert forall|k: Seq<char>| r.dom().contains(k) implies (#[trigger] r[k]).len() > 0 by {
        if k != key || value.len() == 0 {
            assert(m[k].len() > 0);
        }
    }
}

/// The tags of one request.
#[derive(Debug)]
pub struct Tags {
    tags: StringMap,
    extra: StringMap,
}

impl Tags {
    #[verifier::type_invariant]
    spec fn values_are_not_empty(&self) -> bool {
        no_empty_values(self.tags@) && no_empty_values(self.extra@)
    }

    /// The bounded tags, for metrics and structured logs.
    pub closed spec fn tag_map(&self) -> Map<Seq<char>, Seq<char>> {
        self.tags@
    }

    /// The unbounded context, for error reports only.
    pub closed spec fn extra_map(&self) -> Map<Seq<char>, Seq<char>> {
        self.extra@
    }

    /// Merges `new_tags` into this set, key by key; where both sets hold a
    /// key, the value of `new_tags` stays.
    pub fn extend(&mut self, new_tags: Tags)
        ensures
            final(self).tag_map() == old(self).tag_map().union_prefer_right(new_tags.tag_map()),
            final(self).extra_map() == old(self).extra_map().union_prefer_right(
                new_tags.extra_map(),
            ),
            no_empty_values(final(self).tag_map()),
            no_empty_values(final(self).extra_map()),
    {
        proof {
            use_type_invariant(&*self);
            use_type_invariant(&new_tags);
            lemma_merge_stores_no_empty_value(self.tags@, new_tags.tags@);
            lemma_merge_stores_no_empty_value(self.extra@, new_tags.extra@);
        }
        let mut tags = StringMap::new();
        let mut extra = StringMap::new();
        core::mem::swap(&mut self.tags, &mut tags);
        core::mem::swap(&mut self.extra, &mut extra);
        tags.extend(&new_tags.tags);
        extra.extend(&new_tags.extra);
        self.tags = tags;
        self.extra = extra;
    }

    /// A set whose tags are the pairs given, offered in order; `extra` is
    /// empty. A pair with an empty value is passed over.
    pub fn with_tags(tags: Vec<(String, String)>) -> (r: Tags)
        ensures
            r.tag_map() == offered_pairs(tags@),
            r.extra_map() == Map::<Seq<char>, Seq<char>>::empty(),
            no_empty_values(r.tag_map()),
    {
        let mut m = StringMap::new();
        let mut i: usize = 0;
        assert(tags@.take(0) == Seq::<(String, String)>::empty());
        while i < tags.len()
            invariant
                i <= tags@.len(),
                m@ == offered_pairs(tags@.take(i as int)),
                no_empty_values(m@),
            decreases tags@.len() - i,
        {
            proof {
                let next = tags@.take(i + 1);
                assert(next.drop_last() == tags@.take(i as int));
                assert(next.last() == tags@[i as int]);
                lemma_offer_stores_no_empty_value(m@, tags@[i as int].0@, tags@[i as int].1@);
            }
            if !tags[i].1.as_str().is_empty() {
                let key = tags[i].0.clone();
                let value = tags[i].1.clone();
                m.insert(key, value);
            }
            i += 1;
        }
        assert(tags@.take(i as int) == tags@);
        Tags { tags: m, extra: StringMap::new() }
    }

    /// A set with the one tag given, or with none where `value` is empty.
    pub fn with_tag(key: &str, value: &str) -> (r: Tags)
        ensures
            r.tag_map() == offer(Map::empty(), key@, value@),
            r.extra_map() == Map::<Seq<char>, Seq<char>>::empty(),
    {
        let mut tags = Tags::default();
        tags.add_tag(key, value);
        tags
    }

    /// Stores `value` under `key` in `extra`; an empty value changes nothing.
    pub fn add_extra(&mut self, key: &str, value: &str)
        ensures
            final(self).extra_map() == offer(old(self).extra_map(), key@, value@),
            final(self).tag_map() == old(self).tag_map(),
            no_empty_values(final(self).extra_map()),
    {
        proof {
            use_type_invariant(&*self);
            lemma_offer_stores_no_empty_value(self.extra@, key@, value@);
        }
        if !value.is_empty() {
            let mut extra = StringMap::new();
            core::mem::swap(&mut self.extra, &mut extra);
            extra.insert(key.to_owned(), value.to_owned());
            self.extra = extra;
        }
    }

    /// Stores `value` under `key` in `tags`; an empty value changes nothing.
    pub fn add_tag(&mut self, key: &str, value: &str)
        ensures
            final(self).tag_map() == offer(old(self).tag_map(), key@, value@),
            final(self).extra_map() == old(self).extra_map(),
            no_empty_values(final(self).tag_map()),
    {
        proof {
            use_type_invariant(&*self);
            lemma_offer_stores_no_empty_value(self.tags@, key@, value@);
        }
        if !value.is_empty() {
            let mut tags = StringMap::new();
            core::mem::swap(&mut self.tags, &mut tags);
            tags.insert(key.to_owned(), value.to_owned());
            self.tags = tags;
        }
    }

    /// The tag stored under `label`, or the text `None` where there is none.
    pub fn get(&self, label: &str) -> (r: String)
        ensures
            r@ == if self.tag_map().dom().contains(label@) {
                self.tag_map()[label@]
            } else {
                "None"@
            },
    {
        match self.tags.get(label) {
            Some(value) => value.clone(),
            None => "None".to_owned(),
        }
    }

    /// Whether a tag is stored under `label`.
    pub fn has_tag(&self, label: &str) -> (b: bool)
        ensures
            b == self.tag_map().dom().contains(label@),
    {
        self.tags.contains_key(label)
    }

    /// The tags as a JSON object, in ascending order of their keys.
    pub fn to_json(&self) -> (text: String)
        ensures
            exists|sorted: Seq<(String, String)>|
                sorted_by_key(sorted) && pairs_map(sorted) == self.tag_map() && text@
                    == object_text(with_values(sorted)),
    {
        let sorted = self.tags.sorted_pairs();
        object(&sorted)
    }

    /// The tags as pairs in ascending order of their keys.
    pub fn tag_tree(self) -> (v: Vec<(String, String)>)
        ensures
            sorted_by_key(v@),
            distinct_keys(v@),
            no_empty_pair(v@),
            pairs_map(v@) == self.tag_map(),
    {
        proof {
            use_type_invariant(&self);
        }
        let v = self.tags.sorted_pairs();
        proof {
            lemma_pairs_of_map_without_empty(v@);
        }
        v
    }

    /// The extra context as pairs in ascending order of their keys.
    pub fn extra_tree(self) -> (v: Vec<(String, String)>)
        ensures
            sorted_by_key(v@),
            distinct_keys(v@),
            no_empty_pair(v@),
            pairs_map(v@) == self.extra_map(),
    {
        proof {
            use_type_invariant(&self);
        }
        let v = self.extra.sorted_pairs();
        proof {
            lemma_pairs_of_map_without_empty(v@);
        }
        v
    }
}

impl Default for Tags {
    fn default() -> (r: Tags)
        ensures
            r.tag_map() == Map::<Seq<char>, Seq<char>>::empty(),
            r.extra_map() == Map::<Seq<char>, Seq<char>>::empty(),
    {
        Tags { tags: StringMap::new(), extra: StringMap::new() }
    }
}

impl Clone for Tags {
    fn clone(&self) -> (r: Tags)
        ensures
            r.tag_map() == self.tag_map(),
            r.extra_map() == self.extra_map(),
    {
        proof {
            use_type_invariant(self);
        }
        Tags { tags: self.tags.clone(), extra: self.extra.clone() }
    }
}

/// A list with distinct keys whose map has no empty value has no pair with
/// an empty value.
proof fn lemma_pairs_of_map_without_empty(s: Seq<(String, String)>)
    requires
        distinct_keys(s),
        no_empty_values(pairs_map(s)),
    ensures
        no_empty_pair(s),
{
    crate::string_map::lemma_pairs_map_entries(s);
    assert forall|i: int| 0 <= i < s.len() implies (#[trigger] s[i]).1@.len() > 0 by {
        assert(pairs_map(s).dom().contains(s[i].0@));
        assert(pairs_map(s)[s[i].0@] == s[i].1@);
    }
}

} // verus!
