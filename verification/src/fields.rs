//! Maps from field names to what is said of each field.
use crate::json::{json_of, members_of, object_value, string_value, Json, Members};
use crate::text::same_text;
use serde_json::Value;
use vstd::prelude::*;

verus! {

/// The map that holds the pairs of a sequence, a later one in place of an earlier one of its key.
spec fn map_of<V>(entries: Seq<(String, V)>) -> Map<Seq<char>, V>
    decreases entries.len(),
{
    if entries.len() == 0 {
        Map::empty()
    } else {
        map_of(entries.drop_last()).insert(entries.last().0@, entries.last().1)
    }
}

spec fn keys_distinct<V>(entries: Seq<(String, V)>) -> bool {
    forall|i: int, j: int|
        0 <= i < j < entries.len() ==> (#[trigger] entries[i]).0@ != (#[trigger] entries[j]).0@
}

/// A map from field names to values. No name occurs twice.
#[derive(Debug)]
pub struct FieldMap<V> {
    entries: Vec<(String, V)>,
}

impl<V> View for FieldMap<V> {
    type V = Map<Seq<char>, V>;

    closed spec fn view(&self) -> Map<Seq<char>, V> {
        map_of(self.entries@)
    }
}

/// Where all keys differ, replacing the value at one index sets that key.
proof fn lemma_update<V>(entries: Seq<(String, V)>, i: int, entry: (String, V))
    requires
        keys_distinct(entries),
        0 <= i < entries.len(),
        entries[i].0@ == entry.0@,
    ensures
        map_of(entries.update(i, entry)) == map_of(entries).insert(entry.0@, entry.1),
    decreases entries.len(),
{
    let init = entries.drop_last();
    if i == entries.len() - 1 {
        assert(entries.update(i, entry).drop_last() =~= init);
        assert(map_of(entries.update(i, entry)) =~= map_of(entries).insert(entry.0@, entry.1));
    } else {
        assert(keys_distinct(init)) by {
            assert forall|a: int, b: int| 0 <= a < b < init.len() implies (#[trigger] init[a]).0@
                != (#[trigger] init[b]).0@ by {
                assert(init[a] == entries[a] && init[b] == entries[b]);
            }
        }
        lemma_update(init, i, entry);
        assert(entries.update(i, entry).drop_last() =~= init.update(i, entry));
        assert(entries[i].0@ != entries[entries.len() - 1].0@);
        assert(map_of(entries.update(i, entry)) =~= map_of(entries).insert(entry.0@, entry.1));
    }
}

impl<V> FieldMap<V> {
    #[verifier::type_invariant]
    spec fn wf(self) -> bool {
        keys_distinct(self.entries@)
    }

    /// The map without fields.
    pub fn new() -> (r: Self)
        ensures
            r@ == Map::<Seq<char>, V>::empty(),
    {
        FieldMap { entries: Vec::new() }
    }

    /// Sets the field `key`, in place of its earlier value where there was one.
    pub fn insert(&mut self, key: String, value: V)
        ensures
            final(self)@ == old(self)@.insert(key@, value),
    {
        proof {
            use_type_invariant(&*self);
        }
        let mut entries: Vec<(String, V)> = Vec::new();
        std::mem::swap(&mut entries, &mut self.entries);
        let ghost before = entries@;
        let mut i: usize = 0;
        while i < entries.len()
            invariant
                i <= entries.len(),
                entries@ == before,
                keys_distinct(before),
                map_of(before) == old(self)@,
                forall|j: int| 0 <= j < i ==> (#[trigger] before[j]).0@ != key@,
            decreases entries.len() - i,
        {
            if same_text(entries[i].0.as_str(), key.as_str()) {
                proof {
                    lemma_update(before, i as int, (key, value));
                }
                entries.set(i, (key, value));
                self.entries = entries;
                return;
            }
            i += 1;
        }
        entries.push((key, value));
        assert(entries@.drop_last() =~= before);
        self.entries = entries;
    }

    /// Whether the map has no field.
    pub fn is_empty(&self) -> (r: bool)
        ensures
            r == (self@ == Map::<Seq<char>, V>::empty()),
    {
        assert(self.entries@.len() > 0 ==> self@.contains_key(self.entries@.last().0@));
        self.entries.len() == 0
    }
}

impl<V> Default for FieldMap<V> {
    fn default() -> (r: Self)
        ensures
            r@ == Map::<Seq<char>, V>::empty(),
    {
        FieldMap::new()
    }
}

impl<V: Clone> Clone for FieldMap<V> {
    fn clone(&self) -> (r: Self)
        ensures
            r@.dom() == self@.dom(),
            forall|k: Seq<char>| #[trigger]
                self@.contains_key(k) ==> cloned::<V>(self@[k], r@[k]),
    {
        proof {
            use_type_invariant(self);
        }
        let mut entries: Vec<(String, V)> = Vec::new();
        let mut i: usize = 0;
        assert(entries@ =~= Seq::empty());
        while i < self.entries.len()
            invariant
                i <= self.entries.len(),
                keys_distinct(self.entries@),
                entries@.len() == i,
                forall|j: int| 0 <= j < i ==> (#[trigger] entries@[j]).0@ == self.entries@[j].0@,
                map_of(entries@).dom() == map_of(self.entries@.take(i as int)).dom(),
                forall|k: Seq<char>| #[trigger]
                    map_of(self.entries@.take(i as int)).contains_key(k) ==> cloned::<V>(
                        map_of(self.entries@.take(i as int))[k],
                        map_of(entries@)[k],
                    ),
            decreases self.entries.len() - i,
        {
            let ghost before = entries@;
            entries.push((self.entries[i].0.clone(), self.entries[i].1.clone()));
            assert(entries@.drop_last() =~= before);
            assert(self.entries@.take(i + 1).drop_last() =~= self.entries@.take(i as int));
            assert(map_of(entries@).dom() =~= map_of(self.entries@.take(i + 1)).dom());
            i += 1;
        }
        assert(self.entries@.take(self.entries@.len() as int) =~= self.entries@);
        FieldMap { entries }
    }
}

/// What a map that may be absent holds.
pub open spec fn opt_map<V>(m: Option<FieldMap<V>>) -> Option<Map<Seq<char>, V>> {
    match m {
        Some(fields) => Some(fields@),
        None => None,
    }
}

/// Copies a map of texts, where there is one.
pub(crate) fn clone_texts(m: &Option<FieldMap<String>>) -> (r: Option<FieldMap<String>>)
    ensures
        opt_map(r) == opt_map(*m),
{
    match m {
        Some(fields) => {
            let copy = fields.clone();
            assert(copy@ =~= fields@);
            Some(copy)
        },
        None => None,
    }
}

/// A map of texts, as the members of a JSON object.
pub open spec fn text_members(m: Map<Seq<char>, String>) -> Members {
    m.map_values(|t: String| Json::Str(t@))
}

/// A map of documents, as the members of a JSON object.
pub open spec fn value_members(m: Map<Seq<char>, Value>) -> Members {
    m.map_values(|v: Value| json_of(v))
}

/// The object whose members are the given texts.
pub(crate) fn texts_object(m: FieldMap<String>) -> (r: Value)
    ensures
        json_of(r) == Json::Object(text_members(m@)),
{
    let mut out = serde_json::Map::new();
    let mut i: usize = 0;
    assert(members_of(out) =~= text_members(map_of(m.entries@.take(0))));
    while i < m.entries.len()
        invariant
            i <= m.entries.len(),
            members_of(out) == text_members(map_of(m.entries@.take(i as int))),
        decreases m.entries.len() - i,
    {
        out.insert(m.entries[i].0.clone(), string_value(m.entries[i].1.clone()));
        assert(m.entries@.take(i + 1).drop_last() =~= m.entries@.take(i as int));
        assert(members_of(out) =~= text_members(map_of(m.entries@.take(i + 1))));
        i += 1;
    }
    assert(m.entries@.take(m.entries@.len() as int) =~= m.entries@);
    object_value(out)
}

/// The object whose members are the given documents.
pub(crate) fn values_object(m: FieldMap<Value>) -> (r: Value)
    ensures
        json_of(r) == Json::Object(value_members(m@)),
{
    let mut out = serde_json::Map::new();
    let mut i: usize = 0;
    assert(members_of(out) =~= value_members(map_of(m.entries@.take(0))));
    while i < m.entries.len()
        invariant
            i <= m.entries.len(),
            members_of(out) == value_members(map_of(m.entries@.take(i as int))),
        decreases m.entries.len() - i,
    {
        out.insert(m.entries[i].0.clone(), m.entries[i].1.clone());
        assert(m.entries@.take(i + 1).drop_last() =~= m.entries@.take(i as int));
        assert(members_of(out) =~= value_members(map_of(m.entries@.take(i + 1))));
        i += 1;
    }
    assert(m.entries@.take(m.entries@.len() as int) =~= m.entries@);
    object_value(out)
}

} // verus!
