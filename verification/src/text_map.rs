//! A map from strings to strings, kept as a list sorted by key.

use crate::text;
use vstd::prelude::*;

verus! {

/// A key and its value, as characters.
pub type TextPair = (Seq<char>, Seq<char>);

/// The map that a list of pairs makes: of two values for one key the later one
/// stays.
pub open spec fn map_of(pairs: Seq<TextPair>) -> Map<Seq<char>, Seq<char>>
    decreases pairs.len(),
{
    if pairs.len() == 0 {
        Map::empty()
    } else {
        map_of(pairs.drop_last()).insert(pairs.last().0, pairs.last().1)
    }
}

/// Whether the keys of a list strictly ascend.
pub open spec fn ascending(pairs: Seq<TextPair>) -> bool {
    forall|i: int, j: int|
        0 <= i < j < pairs.len() ==> #[trigger] text::before(pairs[i].0, #[trigger] pairs[j].0)
}

/// Whether no key of a list occurs twice.
pub open spec fn distinct(pairs: Seq<TextPair>) -> bool {
    forall|i: int, j: int| 0 <= i < j < pairs.len() ==> #[trigger] pairs[i].0 != #[trigger] pairs[j].0
}

proof fn ascending_is_distinct(pairs: Seq<TextPair>)
    requires
        ascending(pairs),
    ensures
        distinct(pairs),
{
    assert forall|i: int, j: int| 0 <= i < j < pairs.len() implies #[trigger] pairs[i].0
        != #[trigger] pairs[j].0 by {
        assert(text::before(pairs[i].0, pairs[j].0));
        text::before_is_irreflexive(pairs[i].0);
    }
}

/// The keys of a list without duplicates are those of its map, each with the
/// value that stands beside it.
pub proof fn map_of_distinct(pairs: Seq<TextPair>)
    requires
        distinct(pairs),
    ensures
        forall|i: int|
            0 <= i < pairs.len() ==> map_of(pairs).dom().contains(#[trigger] pairs[i].0) && map_of(
                pairs,
            )[pairs[i].0] == pairs[i].1,
        forall|k: Seq<char>| #[trigger]
            map_of(pairs).dom().contains(k) ==> exists|i: int|
                0 <= i < pairs.len() && #[trigger] pairs[i].0 == k,
    decreases pairs.len(),
{
    if pairs.len() > 0 {
        let front = pairs.drop_last();
        map_of_distinct(front);
        assert forall|i: int| 0 <= i < pairs.len() implies map_of(pairs).dom().contains(
            #[trigger] pairs[i].0,
        ) && map_of(pairs)[pairs[i].0] == pairs[i].1 by {
            if i < front.len() {
                assert(front[i] == pairs[i]);
                assert(pairs[i].0 != pairs[pairs.len() - 1].0);
            }
        }
        assert forall|k: Seq<char>| #[trigger] map_of(pairs).dom().contains(k) implies exists|i: int|
            0 <= i < pairs.len() && #[trigger] pairs[i].0 == k by {
            if k == pairs.last().0 {
                assert(pairs[pairs.len() - 1].0 == k);
            } else {
                assert(map_of(front).dom().contains(k));
                let i = choose|i: int| 0 <= i < front.len() && #[trigger] front[i].0 == k;
                assert(pairs[i].0 == k);
            }
        }
    }
}

/// A map has one ascending list of pairs: which list holds it does not depend
/// on how the map came about.
pub proof fn ascending_is_canonical(a: Seq<TextPair>, b: Seq<TextPair>)
    requires
        ascending(a),
        ascending(b),
        map_of(a) == map_of(b),
    ensures
        a == b,
    decreases a.len() + b.len(),
{
    ascending_is_distinct(a);
    ascending_is_distinct(b);
    map_of_distinct(a);
    map_of_distinct(b);
    if a.len() == 0 {
        if b.len() > 0 {
            assert(map_of(a).dom().contains(b[0].0));
        }
        assert(a =~= b);
    } else if b.len() == 0 {
        assert(map_of(b).dom().contains(a[0].0));
    } else {
        let m = a.len() - 1;
        let n = b.len() - 1;
        let i = choose|i: int| 0 <= i < b.len() && #[trigger] b[i].0 == a[m].0;
        assert(map_of(b).dom().contains(a[m].0));
        let j = choose|j: int| 0 <= j < a.len() && #[trigger] a[j].0 == b[n].0;
        assert(map_of(a).dom().contains(b[n].0));
        if i < n && j < m {
            assert(text::before(b[i].0, b[n].0));
            assert(text::before(a[j].0, a[m].0));
            text::before_is_transitive(a[m].0, b[n].0, a[m].0);
            text::before_is_irreflexive(a[m].0);
        }
        if i < n {
            assert(text::before(b[i].0, b[n].0));
            assert(j == m);
            text::before_is_irreflexive(a[m].0);
        }
        assert(i == n);
        assert(a[m].0 == b[n].0);
        assert(a[m].1 == b[n].1);
        let front_a = a.drop_last();
        let front_b = b.drop_last();
        assert(ascending(front_a)) by {
            assert forall|x: int, y: int| 0 <= x < y < front_a.len() implies #[trigger] text::before(
                front_a[x].0,
                #[trigger] front_a[y].0,
            ) by {
                assert(text::before(a[x].0, a[y].0));
            }
        }
        assert(ascending(front_b)) by {
            assert forall|x: int, y: int| 0 <= x < y < front_b.len() implies #[trigger] text::before(
                front_b[x].0,
                #[trigger] front_b[y].0,
            ) by {
                assert(text::before(b[x].0, b[y].0));
            }
        }
        ascending_is_distinct(front_a);
        ascending_is_distinct(front_b);
        map_of_distinct(front_a);
        map_of_distinct(front_b);
        let k = a[m].0;
        assert(!map_of(front_a).dom().contains(k)) by {
            if map_of(front_a).dom().contains(k) {
                let x = choose|x: int| 0 <= x < front_a.len() && #[trigger] front_a[x].0 == k;
                assert(a[x].0 == a[m].0);
            }
        }
        assert(!map_of(front_b).dom().contains(k)) by {
            if map_of(front_b).dom().contains(k) {
                let x = choose|x: int| 0 <= x < front_b.len() && #[trigger] front_b[x].0 == k;
                assert(b[x].0 == b[n].0);
            }
        }
        assert(map_of(front_a) =~= map_of(a).remove(k));
        assert(map_of(front_b) =~= map_of(b).remove(k));
        ascending_is_canonical(front_a, front_b);
        assert(a =~= front_a.push(a[m]));
        assert(b =~= front_b.push(b[n]));
    }
}

/// The pairs of a list of owned strings.
pub open spec fn pairs_of(entries: Seq<(String, String)>) -> Seq<TextPair> {
    Seq::new(entries.len(), |i: int| (entries[i].0@, entries[i].1@))
}

/// A map from strings to strings. Its entries stand in ascending order of key.
#[derive(Debug, PartialEq, Eq)]
pub struct TextMap {
    entries: Vec<(String, String)>,
}

impl View for TextMap {
    type V = Map<Seq<char>, Seq<char>>;

    closed spec fn view(&self) -> Map<Seq<char>, Seq<char>> {
        map_of(pairs_of(self.entries@))
    }
}

impl TextMap {
    #[verifier::type_invariant]
    spec fn sorted(self) -> bool {
        ascending(pairs_of(self.entries@))
    }

    /// The map without entries.
    pub fn new() -> (r: TextMap)
        ensures
            r@ == Map::<Seq<char>, Seq<char>>::empty(),
    {
        TextMap { entries: Vec::new() }
    }

    /// The first entry whose key is not before `key`, counted from 0.
    fn position(&self, key: &str) -> (r: usize)
        ensures
            r <= self.entries@.len(),
            forall|i: int| 0 <= i < r ==> text::before(#[trigger] self.entries@[i].0@, key@),
            r < self.entries@.len() ==> !text::before(self.entries@[r as int].0@, key@),
    {
        let mut i: usize = 0;
        while i < self.entries.len() && text::comes_before(self.entries[i].0.as_str(), key)
            invariant
                i <= self.entries@.len(),
                forall|k: int| 0 <= k < i ==> text::before(#[trigger] self.entries@[k].0@, key@),
            decreases self.entries@.len() - i,
        {
            i += 1;
        }
        i
    }

    /// The value of `key`, if it has one.
    pub fn get(&self, key: &str) -> (r: Option<&String>)
        ensures
            r is Some <==> self@.dom().contains(key@),
            r matches Some(value) ==> value@ == self@[key@],
    {
        let i = self.position(key);
        proof {
            use_type_invariant(self);
            let pairs = pairs_of(self.entries@);
            ascending_is_distinct(pairs);
            map_of_distinct(pairs);
            if i < pairs.len() {
                assert(pairs[i as int].0 == self.entries@[i as int].0@);
            }
            if self@.dom().contains(key@) {
                let k = choose|k: int| 0 <= k < pairs.len() && #[trigger] pairs[k].0 == key@;
                assert(pairs[k].0 == self.entries@[k].0@);
                text::before_is_irreflexive(key@);
                assert(k >= i);
                if k > i {
                    assert(text::before(pairs[i as int].0, pairs[k].0));
                }
                assert(k == i);
            }
        }
        if i < self.entries.len() && text::same(self.entries[i].0.as_str(), key) {
            Some(&self.entries[i].1)
        } else {
            None
        }
    }

    /// Gives `key` a value, in place of the one that it may have had.
    pub fn insert(&mut self, key: String, value: String)
        ensures
            final(self)@ == old(self)@.insert(key@, value@),
    {
        let i = self.position(key.as_str());
        proof {
            use_type_invariant(&*self);
        }
        let ghost before = pairs_of(self.entries@);
        let ghost pair = (key@, value@);
        let mut entries: Vec<(String, String)> = Vec::new();
        std::mem::swap(&mut entries, &mut self.entries);
        proof {
            ascending_is_distinct(before);
            map_of_distinct(before);
        }
        if i < entries.len() && text::same(entries[i].0.as_str(), key.as_str()) {
            entries.set(i, (key, value));
            proof {
                let after = pairs_of(entries@);
                assert(before[i as int].0 == key@);
                assert(after =~= before.update(i as int, pair));
                assert forall|x: int, y: int| 0 <= x < y < after.len() implies #[trigger] text::before(
                    after[x].0,
                    #[trigger] after[y].0,
                ) by {
                    assert(text::before(before[x].0, before[y].0));
                    assert(after[x].0 == before[x].0 && after[y].0 == before[y].0);
                }
                ascending_is_distinct(after);
                map_of_distinct(after);
                assert(map_of(after) =~= map_of(before).insert(key@, value@)) by {
                    lemma_same_map(before, after, i as int, pair);
                }
            }
        } else {
            proof {
                if i < entries@.len() {
                    text::before_is_total(before[i as int].0, key@);
                    assert(text::before(key@, before[i as int].0));
                }
            }
            entries.insert(i, (key, value));
            proof {
                let after = pairs_of(entries@);
                assert(after =~= before.insert(i as int, pair));
                lemma_insert_ascends(before, i as int, pair);
                ascending_is_distinct(after);
                map_of_distinct(after);
                assert(map_of(after) =~= map_of(before).insert(key@, value@)) by {
                    lemma_grown_map(before, after, i as int, pair);
                }
            }
        }
        self.entries = entries;
    }

    /// The entries, in ascending order of key.
    pub fn entries(&self) -> (r: &Vec<(String, String)>)
        ensures
            ascending(pairs_of(r@)),
            map_of(pairs_of(r@)) == self@,
    {
        proof {
            use_type_invariant(self);
        }
        &self.entries
    }

    /// Whether there is no entry.
    pub fn is_empty(&self) -> (r: bool)
        ensures
            r == (self@ == Map::<Seq<char>, Seq<char>>::empty()),
    {
        proof {
            use_type_invariant(self);
            let pairs = pairs_of(self.entries@);
            ascending_is_distinct(pairs);
            map_of_distinct(pairs);
            if pairs.len() > 0 {
                assert(self@.dom().contains(pairs[0].0));
            }
        }
        self.entries.len() == 0
    }
}

impl Clone for TextMap {
    fn clone(&self) -> (r: TextMap)
        ensures
            r@ == self@,
    {
        let mut entries: Vec<(String, String)> = Vec::new();
        let mut i: usize = 0;
        while i < self.entries.len()
            invariant
                i <= self.entries@.len(),
                entries@ == self.entries@.take(i as int),
            decreases self.entries@.len() - i,
        {
            entries.push((self.entries[i].0.clone(), self.entries[i].1.clone()));
            i += 1;
            assert(entries@ =~= self.entries@.take(i as int));
        }
        proof {
            use_type_invariant(self);
            assert(entries@ =~= self.entries@);
        }
        TextMap { entries }
    }
}

proof fn lemma_insert_ascends(pairs: Seq<TextPair>, i: int, pair: TextPair)
    requires
        ascending(pairs),
        0 <= i <= pairs.len(),
        forall|k: int| 0 <= k < i ==> text::before(#[trigger] pairs[k].0, pair.0),
        i < pairs.len() ==> text::before(pair.0, pairs[i].0),
    ensures
        ascending(pairs.insert(i, pair)),
{
    let after = pairs.insert(i, pair);
    assert forall|x: int, y: int| 0 <= x < y < after.len() implies #[trigger] text::before(
        after[x].0,
        #[trigger] after[y].0,
    ) by {
        if y < i {
            assert(text::before(pairs[x].0, pairs[y].0));
        } else if y == i {
            assert(text::before(pairs[x].0, pair.0));
        } else if x == i {
            if y - 1 > i {
                assert(text::before(pairs[i].0, pairs[y - 1].0));
                text::before_is_transitive(pair.0, pairs[i].0, pairs[y - 1].0);
            }
        } else if x < i {
            assert(text::before(pairs[x].0, pairs[y - 1].0));
        } else {
            assert(text::before(pairs[x - 1].0, pairs[y - 1].0));
        }
    }
}

proof fn lemma_same_map(before: Seq<TextPair>, after: Seq<TextPair>, i: int, pair: TextPair)
    requires
        distinct(before),
        distinct(after),
        0 <= i < before.len(),
        before[i].0 == pair.0,
        after == before.update(i, pair),
    ensures
        map_of(after) =~= map_of(before).insert(pair.0, pair.1),
{
    map_of_distinct(before);
    map_of_distinct(after);
    let want = map_of(before).insert(pair.0, pair.1);
    assert forall|k: Seq<char>| map_of(after).dom().contains(k) <==> want.dom().contains(k) by {
        if map_of(after).dom().contains(k) {
            let x = choose|x: int| 0 <= x < after.len() && #[trigger] after[x].0 == k;
            assert(before[x].0 == k);
        }
        if want.dom().contains(k) {
            if k == pair.0 {
                assert(after[i].0 == k);
            } else {
                let x = choose|x: int| 0 <= x < before.len() && #[trigger] before[x].0 == k;
                assert(after[x].0 == k);
            }
        }
    }
    assert forall|k: Seq<char>| map_of(after).dom().contains(k) implies map_of(after)[k]
        == want[k] by {
        let x = choose|x: int| 0 <= x < after.len() && #[trigger] after[x].0 == k;
        if x != i {
            assert(before[x].0 == k);
            assert(before[x].0 != before[i].0);
        }
    }
}

proof fn lemma_grown_map(before: Seq<TextPair>, after: Seq<TextPair>, i: int, pair: TextPair)
    requires
        distinct(before),
        distinct(after),
        0 <= i <= before.len(),
        after == before.insert(i, pair),
    ensures
        map_of(after) =~= map_of(before).insert(pair.0, pair.1),
{
    map_of_distinct(before);
    map_of_distinct(after);
    let want = map_of(before).insert(pair.0, pair.1);
    assert forall|k: Seq<char>| map_of(after).dom().contains(k) <==> want.dom().contains(k) by {
        if map_of(after).dom().contains(k) {
            let x = choose|x: int| 0 <= x < after.len() && #[trigger] after[x].0 == k;
            if x < i {
                assert(before[x].0 == k);
            } else if x > i {
                assert(before[x - 1].0 == k);
            }
        }
        if want.dom().contains(k) {
            if k == pair.0 {
                assert(after[i].0 == k);
            } else {
                let x = choose|x: int| 0 <= x < before.len() && #[trigger] before[x].0 == k;
                if x < i {
                    assert(after[x].0 == k);
                } else {
                    assert(after[x + 1].0 == k);
                }
            }
        }
    }
    assert forall|k: Seq<char>| map_of(after).dom().contains(k) implies map_of(after)[k]
        == want[k] by {
        let x = choose|x: int| 0 <= x < after.len() && #[trigger] after[x].0 == k;
        assert(after[i].0 == pair.0);
        if x < i {
            assert(before[x] == after[x]);
            assert(after[x].0 != after[i].0);
        } else if x > i {
            assert(before[x - 1] == after[x]);
            assert(after[i].0 != after[x].0);
        }
    }
}

/// A pair that comes later takes the place of an earlier one with its key, and leaves
/// every other.
pub proof fn later_pairs_win(pairs: Seq<TextPair>, key: Seq<char>, value: Seq<char>)
    ensures
        map_of(Seq::empty()) == Map::<Seq<char>, Seq<char>>::empty(),
        map_of(pairs.push((key, value))) == map_of(pairs).insert(key, value),
{
    assert(pairs.push((key, value)).drop_last() =~= pairs);
}

} // verus!
