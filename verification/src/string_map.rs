//! A map from text to text that keeps its entries in the order in which
//! their keys were first inserted.

use vstd::prelude::*;
use vstd::string::*;
use crate::text::same_text;

verus! {

/// The map that results from inserting `pairs` one by one, in order.
pub open spec fn map_of(pairs: Seq<(Seq<char>, Seq<char>)>) -> Map<Seq<char>, Seq<char>>
    decreases pairs.len(),
{
    if pairs.len() == 0 {
        Map::empty()
    } else {
        map_of(pairs.drop_last()).insert(pairs.last().0, pairs.last().1)
    }
}

/// The keys of a map of pairs are the keys of the pairs.
pub proof fn lemma_map_of_keys(pairs: Seq<(Seq<char>, Seq<char>)>, key: Seq<char>)
    ensures
        map_of(pairs).contains_key(key) <==> exists|i: int|
            0 <= i < pairs.len() && (#[trigger] pairs[i]).0 == key,
    decreases pairs.len(),
{
    if pairs.len() > 0 {
        let shorter = pairs.drop_last();
        lemma_map_of_keys(shorter, key);
        if map_of(pairs).contains_key(key) {
            if pairs.last().0 == key {
                assert(pairs[pairs.len() - 1].0 == key);
            } else {
                let i = choose|i: int| 0 <= i < shorter.len() && (#[trigger] shorter[i]).0 == key;
                assert(pairs[i].0 == key);
            }
        }
        if exists|i: int| 0 <= i < pairs.len() && (#[trigger] pairs[i]).0 == key {
            let i = choose|i: int| 0 <= i < pairs.len() && (#[trigger] pairs[i]).0 == key;
            if i < pairs.len() - 1 {
                assert(shorter[i].0 == key);
            }
        }
    }
}

/// Where no two pairs share a key, each pair's key maps to its value.
pub proof fn lemma_map_of_value(pairs: Seq<(Seq<char>, Seq<char>)>, at: int)
    requires
        0 <= at < pairs.len(),
        forall|i: int, j: int| 0 <= i < j < pairs.len() ==> pairs[i].0 != pairs[j].0,
    ensures
        map_of(pairs).contains_key(pairs[at].0),
        map_of(pairs)[pairs[at].0] == pairs[at].1,
    decreases pairs.len(),
{
    if at < pairs.len() - 1 {
        let shorter = pairs.drop_last();
        assert forall|i: int, j: int| 0 <= i < j < shorter.len() implies shorter[i].0
            != shorter[j].0 by {
            assert(shorter[i] == pairs[i] && shorter[j] == pairs[j]);
        }
        lemma_map_of_value(shorter, at);
        assert(shorter[at] == pairs[at]);
    }
}

/// Where no two pairs share a key, giving the pair at `at` a new value is
/// inserting that value under its key.
pub proof fn lemma_map_of_update(pairs: Seq<(Seq<char>, Seq<char>)>, at: int, value: Seq<char>)
    requires
        0 <= at < pairs.len(),
        forall|i: int, j: int| 0 <= i < j < pairs.len() ==> pairs[i].0 != pairs[j].0,
    ensures
        map_of(pairs.update(at, (pairs[at].0, value))) == map_of(pairs).insert(pairs[at].0, value),
    decreases pairs.len(),
{
    let key = pairs[at].0;
    let changed = pairs.update(at, (key, value));
    let shorter = pairs.drop_last();
    if at == pairs.len() - 1 {
        assert(changed.drop_last() =~= shorter);
        assert(map_of(changed) =~= map_of(pairs).insert(key, value));
    } else {
        assert forall|i: int, j: int| 0 <= i < j < shorter.len() implies shorter[i].0
            != shorter[j].0 by {
            assert(shorter[i] == pairs[i] && shorter[j] == pairs[j]);
        }
        lemma_map_of_update(shorter, at, value);
        assert(shorter[at] == pairs[at]);
        assert(changed.drop_last() =~= shorter.update(at, (key, value)));
        assert(changed.last() == pairs.last());
        assert(pairs.last().0 != key);
        assert(map_of(changed) =~= map_of(pairs).insert(key, value));
    }
}

/// The place of `key` among `entries`.
fn position(entries: &Vec<(String, String)>, key: &str) -> (r: Option<usize>)
    ensures
        match r {
            Some(at) => at < entries@.len() && entries@[at as int].0@ == key@,
            None => forall|i: int| 0 <= i < entries@.len() ==> entries@[i].0@ != key@,
        },
{
    let mut i: usize = 0;
    while i < entries.len()
        invariant
            i <= entries@.len(),
            forall|j: int| 0 <= j < i ==> entries@[j].0@ != key@,
        decreases entries.len() - i,
    {
        if same_text(entries[i].0.as_str(), key) {
            return Some(i);
        }
        i += 1;
    }
    None
}

/// A map from text to text.
///
/// No key occurs twice among its entries; an insertion under a key that is
/// there replaces the value and leaves the entry in its place. Two maps
/// are equal where they hold the same values under the same keys, in
/// whatever order their entries stand.
#[derive(Debug)]
pub struct StringMap {
    entries: Vec<(String, String)>,
}

impl View for StringMap {
    type V = Map<Seq<char>, Seq<char>>;

    closed spec fn view(&self) -> Map<Seq<char>, Seq<char>> {
        map_of(self.pairs())
    }
}

impl StringMap {
    #[verifier::type_invariant]
    spec fn distinct_keys(self) -> bool {
        forall|i: int, j: int|
            0 <= i < j < self.entries@.len() ==> self.entries@[i].0@ != self.entries@[j].0@
    }

    /// The entries as texts, in their order.
    pub closed spec fn pairs(self) -> Seq<(Seq<char>, Seq<char>)> {
        Seq::new(self.entries@.len(), |i: int| (self.entries@[i].0@, self.entries@[i].1@))
    }

    /// The view is the map of the entries.
    pub proof fn lemma_view(self)
        ensures
            self@ == map_of(self.pairs()),
    {
    }

    /// An empty map.
    pub fn new() -> (r: Self)
        ensures
            r@ == Map::<Seq<char>, Seq<char>>::empty(),
            r.pairs() == Seq::<(Seq<char>, Seq<char>)>::empty(),
    {
        let r = StringMap { entries: Vec::new() };
        assert(r.pairs() =~= Seq::<(Seq<char>, Seq<char>)>::empty());
        r
    }

    /// Puts `value` under `key`, in place of the value that was there.
    pub fn insert(&mut self, key: String, value: String)
        ensures
            final(self)@ == old(self)@.insert(key@, value@),
    {
        proof {
            use_type_invariant(&*self);
        }
        let ghost before = self.pairs();
        let mut entries: Vec<(String, String)> = Vec::new();
        core::mem::swap(&mut self.entries, &mut entries);
        match position(&entries, key.as_str()) {
            Some(at) => {
                entries.set(at, (key, value));
                proof {
                    lemma_map_of_update(before, at as int, value@);
                }
            },
            None => {
                entries.push((key, value));
            },
        }
        core::mem::swap(&mut self.entries, &mut entries);
        proof {
            assert(self.pairs() =~= if before.len() == self.pairs().len() {
                let at = choose|at: int| 0 <= at < before.len() && before[at].0 == key@;
                before.update(at, (key@, value@))
            } else {
                before.push((key@, value@))
            });
            if before.len() != self.pairs().len() {
                assert(self.pairs().drop_last() =~= before);
            }
        }
    }

    /// The value under `key`.
    pub fn get(&self, key: &str) -> (r: Option<&String>)
        ensures
            match r {
                Some(value) => self@.contains_key(key@) && self@[key@] == value@,
                None => !self@.contains_key(key@),
            },
    {
        proof {
            use_type_invariant(self);
            lemma_map_of_keys(self.pairs(), key@);
        }
        match position(&self.entries, key) {
            Some(at) => {
                proof {
                    lemma_map_of_value(self.pairs(), at as int);
                }
                Some(&self.entries[at].1)
            },
            None => None,
        }
    }

    /// Whether the map holds no entry.
    pub fn is_empty(&self) -> (r: bool)
        ensures
            r == (self@ == Map::<Seq<char>, Seq<char>>::empty()),
    {
        proof {
            if self.entries@.len() > 0 {
                assert(self@.contains_key(self.pairs().last().0));
            } else {
                assert(self.pairs() =~= Seq::<(Seq<char>, Seq<char>)>::empty());
            }
        }
        self.entries.len() == 0
    }

    /// The number of entries.
    pub fn entry_count(&self) -> (r: usize)
        ensures
            r == self.pairs().len(),
    {
        self.entries.len()
    }

    /// The entry at `at`, in the order of first insertion.
    pub fn entry(&self, at: usize) -> (r: (&str, &str))
        requires
            at < self.pairs().len(),
        ensures
            (r.0@, r.1@) == self.pairs()[at as int],
    {
        (self.entries[at].0.as_str(), self.entries[at].1.as_str())
    }
}

/// Whether `other` holds every key of `map`, with the same value.
pub open spec fn covered_by(map: Map<Seq<char>, Seq<char>>, other: Map<Seq<char>, Seq<char>>) -> bool {
    forall|key: Seq<char>| #[trigger]
        map.contains_key(key) ==> other.contains_key(key) && other[key] == map[key]
}

/// Two maps that cover each other are the same map.
pub proof fn lemma_covering_maps_are_equal(
    map: Map<Seq<char>, Seq<char>>,
    other: Map<Seq<char>, Seq<char>>,
)
    ensures
        (covered_by(map, other) && covered_by(other, map)) <==> map == other,
{
    if covered_by(map, other) && covered_by(other, map) {
        assert(map =~= other);
    }
}

impl StringMap {
    /// Whether `other` holds every key of this map, with the same value.
    pub fn is_covered_by(&self, other: &StringMap) -> (r: bool)
        ensures
            r == covered_by(self@, other@),
    {
        proof {
            use_type_invariant(self);
        }
        let ghost pairs = self.pairs();
        let mut i: usize = 0;
        while i < self.entries.len()
            invariant
                i <= self.entries@.len(),
                pairs == self.pairs(),
                pairs.len() == self.entries@.len(),
                forall|a: int, b: int| 0 <= a < b < pairs.len() ==> pairs[a].0 != pairs[b].0,
                forall|j: int|
                    0 <= j < i ==> other@.contains_key(pairs[j].0) && other@[pairs[j].0]
                        == pairs[j].1,
            decreases self.entries.len() - i,
        {
            proof {
                lemma_map_of_value(pairs, i as int);
            }
            let same = match other.get(self.entries[i].0.as_str()) {
                Some(value) => same_text(value.as_str(), self.entries[i].1.as_str()),
                None => false,
            };
            if !same {
                assert(self@.contains_key(pairs[i as int].0));
                return false;
            }
            i += 1;
        }
        proof {
            assert forall|key: Seq<char>| #[trigger] self@.contains_key(key) implies other@.contains_key(
                key,
            ) && other@[key] == self@[key] by {
                lemma_map_of_keys(pairs, key);
                let j = choose|j: int| 0 <= j < pairs.len() && (#[trigger] pairs[j]).0 == key;
                lemma_map_of_value(pairs, j);
            }
        }
        true
    }
}

impl PartialEq for StringMap {
    fn eq(&self, other: &Self) -> (r: bool) {
        proof {
            lemma_covering_maps_are_equal(self@, other@);
        }
        self.is_covered_by(other) && other.is_covered_by(self)
    }
}

impl Eq for StringMap {

}

impl vstd::std_specs::cmp::PartialEqSpecImpl for StringMap {
    open spec fn obeys_eq_spec() -> bool {
        true
    }

    open spec fn eq_spec(&self, other: &Self) -> bool {
        self@ == other@
    }
}

impl Clone for StringMap {
    fn clone(&self) -> (r: Self)
        ensures
            r@ == self@,
            r.pairs() == self.pairs(),
    {
        proof {
            use_type_invariant(self);
        }
        let mut entries: Vec<(String, String)> = Vec::new();
        let mut i: usize = 0;
        while i < self.entries.len()
            invariant
                i <= self.entries@.len(),
                entries@.len() == i,
                forall|j: int|
                    0 <= j < i ==> entries@[j].0@ == self.entries@[j].0@ && entries@[j].1@
                        == self.entries@[j].1@,
            decreases self.entries.len() - i,
        {
            entries.push((self.entries[i].0.clone(), self.entries[i].1.clone()));
            i += 1;
        }
        let r = StringMap { entries };
        assert(r.pairs() =~= self.pairs());
        r
    }
}

/// The view of an optional map.
pub open spec fn opt_map(m: Option<StringMap>) -> Option<Map<Seq<char>, Seq<char>>> {
    match m {
        Some(m) => Some(m@),
        None => None,
    }
}

/// A copy of an optional map.
pub fn clone_opt_map(m: &Option<StringMap>) -> (r: Option<StringMap>)
    ensures
        opt_map(r) == opt_map(*m),
{
    match m {
        Some(m) => Some(m.clone()),
        None => None,
    }
}

} // verus!
