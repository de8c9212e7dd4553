//! A map from text keys to values, kept as a list of entries in which no
//! key occurs twice; a later value for a key replaces the earlier one.
use vstd::prelude::*;

verus! {

/// The entries of a list of key/value pairs, each taken by its view.
pub open spec fn pair_views<V: View>(entries: Seq<(String, V)>) -> Seq<(Seq<char>, V::V)> {
    entries.map_values(|p: (String, V)| (p.0@, p.1@))
}

/// The map that assigning the pairs in order gives: a later value for a
/// key replaces an earlier one.
pub open spec fn map_of_pairs<V>(pairs: Seq<(Seq<char>, V)>) -> Map<Seq<char>, V>
    decreases pairs.len(),
{
    if pairs.len() == 0 {
        Map::empty()
    } else {
        map_of_pairs(pairs.drop_last()).insert(pairs.last().0, pairs.last().1)
    }
}

/// No key occurs twice.
pub open spec fn keys_distinct<V>(pairs: Seq<(Seq<char>, V)>) -> bool {
    forall|i: int, j: int| 0 <= i < j < pairs.len() ==> pairs[i].0 != pairs[j].0
}

/// Replacing the value of a key that occurs once is inserting into the map.
proof fn lemma_map_of_pairs_update<V>(pairs: Seq<(Seq<char>, V)>, i: int, v: V)
    requires
        keys_distinct(pairs),
        0 <= i < pairs.len(),
    ensures
        map_of_pairs(pairs.update(i, (pairs[i].0, v))) == map_of_pairs(pairs).insert(pairs[i].0, v),
    decreases pairs.len(),
{
    let upd = pairs.update(i, (pairs[i].0, v));
    let key = pairs[i].0;
    if i == pairs.len() - 1 {
        assert(upd.drop_last() =~= pairs.drop_last());
        assert(map_of_pairs(upd) =~= map_of_pairs(pairs).insert(key, v));
    } else {
        assert(upd.drop_last() =~= pairs.drop_last().update(i, (key, v)));
        assert(keys_distinct(pairs.drop_last()));
        lemma_map_of_pairs_update(pairs.drop_last(), i, v);
        assert(pairs.last().0 != key);
        assert(map_of_pairs(upd) =~= map_of_pairs(pairs).insert(key, v));
    }
}

/// A key occurs in the map exactly when some pair carries it.
proof fn lemma_map_of_pairs_dom<V>(pairs: Seq<(Seq<char>, V)>, k: Seq<char>)
    ensures
        map_of_pairs(pairs).dom().contains(k) <==> exists|i: int| 0 <= i < pairs.len() && pairs[i].0 == k,
    decreases pairs.len(),
{
    if pairs.len() > 0 {
        lemma_map_of_pairs_dom(pairs.drop_last(), k);
        if map_of_pairs(pairs.drop_last()).dom().contains(k) {
            let i = choose|i: int| 0 <= i < pairs.drop_last().len() && pairs.drop_last()[i].0 == k;
            assert(pairs[i].0 == k);
        }
        if exists|i: int| 0 <= i < pairs.len() && pairs[i].0 == k {
            let i = choose|i: int| 0 <= i < pairs.len() && pairs[i].0 == k;
            if i < pairs.len() - 1 {
                assert(pairs.drop_last()[i].0 == k);
            }
        }
    }
}

/// Text keys mapped to values, a later value for a key replacing the
/// earlier one.
#[derive(Debug)]
pub struct KeyedValues<V: View> {
    entries: Vec<(String, V)>,
}

impl<V: View> View for KeyedValues<V> {
    type V = Map<Seq<char>, V::V>;

    closed spec fn view(&self) -> Map<Seq<char>, V::V> {
        map_of_pairs(pair_views(self.entries@))
    }
}

impl<V: View> KeyedValues<V> {
    /// No key occurs twice among the entries.
    #[verifier::type_invariant]
    closed spec fn keys_unique(self) -> bool {
        keys_distinct(pair_views(self.entries@))
    }

    /// The entries, in the order in which their keys first came.
    pub closed spec fn pairs(&self) -> Seq<(Seq<char>, V::V)> {
        pair_views(self.entries@)
    }

    /// The map is what its entries give.
    pub proof fn lemma_view(&self)
        ensures
            self@ == map_of_pairs(self.pairs()),
    {
    }

    /// An empty map.
    pub fn new() -> (r: KeyedValues<V>)
        ensures
            r.pairs() == Seq::<(Seq<char>, V::V)>::empty(),
            r@ == Map::<Seq<char>, V::V>::empty(),
    {
        let r = KeyedValues { entries: Vec::new() };
        assert(r.pairs() =~= Seq::<(Seq<char>, V::V)>::empty());
        r
    }

    /// The entries, each key with its value; no key occurs twice.
    pub fn entries(&self) -> (r: &Vec<(String, V)>)
        ensures
            pair_views(r@) == self.pairs(),
            keys_distinct(self.pairs()),
    {
        proof {
            use_type_invariant(self);
        }
        &self.entries
    }

    /// The number of keys.
    pub fn len(&self) -> (r: usize)
        ensures
            r == self@.dom().len(),
    {
        proof {
            use_type_invariant(self);
            lemma_distinct_len(self.pairs());
        }
        self.entries.len()
    }

    /// Sets the value of `key`, replacing an earlier value for it.
    pub fn insert(&mut self, key: String, value: V)
        ensures
            final(self)@ == old(self)@.insert(key@, value@),
    {
        proof {
            use_type_invariant(&*self);
        }
        let mut entries: Vec<(String, V)> = Vec::new();
        std::mem::swap(&mut entries, &mut self.entries);
        let ghost before = pair_views(entries@);
        assert(keys_distinct(before));
        let n = entries.len();
        let mut i: usize = 0;
        while i < n
            invariant
                n == entries.len(),
                i <= n,
                before == pair_views(entries@),
                map_of_pairs(before) == old(self)@,
                keys_distinct(before),
                forall|j: int| 0 <= j < i ==> before[j].0 != key@,
            decreases n - i,
        {
            if entries[i].0 == key {
                proof {
                    lemma_map_of_pairs_update(before, i as int, value@);
                }
                entries.set(i, (key, value));
                assert(pair_views(entries@) =~= before.update(i as int, (before[i as int].0, entries@[i as int].1@)));
                self.entries = entries;
                return;
            }
            i += 1;
        }
        entries.push((key, value));
        assert(pair_views(entries@).drop_last() =~= before);
        assert(pair_views(entries@).last().0 == key@);
        assert(keys_distinct(pair_views(entries@))) by {
            let after = pair_views(entries@);
            assert forall|a: int, b: int| 0 <= a < b < after.len() implies after[a].0 != after[b].0 by {
                if b < before.len() {
                    assert(before[a].0 != before[b].0);
                } else {
                    assert(before[a].0 != key@);
                }
            }
        }
        self.entries = entries;
    }
}

/// A map whose keys are distinct has as many keys as entries.
proof fn lemma_distinct_len<V>(pairs: Seq<(Seq<char>, V)>)
    requires
        keys_distinct(pairs),
    ensures
        map_of_pairs(pairs).dom().len() == pairs.len(),
        map_of_pairs(pairs).dom().finite(),
    decreases pairs.len(),
{
    if pairs.len() > 0 {
        assert(keys_distinct(pairs.drop_last()));
        lemma_distinct_len(pairs.drop_last());
        lemma_map_of_pairs_dom(pairs.drop_last(), pairs.last().0);
        assert(!map_of_pairs(pairs.drop_last()).dom().contains(pairs.last().0));
    }
}

} // verus!

verus! {

/// A key is mapped to the value of its last pair: a later value for a key
/// replaces an earlier one.
pub proof fn law_later_value_wins<V>(pairs: Seq<(Seq<char>, V)>, i: int)
    requires
        0 <= i < pairs.len(),
        forall|j: int| i < j < pairs.len() ==> pairs[j].0 != pairs[i].0,
    ensures
        map_of_pairs(pairs).dom().contains(pairs[i].0),
        map_of_pairs(pairs)[pairs[i].0] == pairs[i].1,
    decreases pairs.len(),
{
    if i < pairs.len() - 1 {
        law_later_value_wins(pairs.drop_last(), i);
        assert(pairs.last().0 != pairs[i].0);
    }
}

/// Keys that no pair carries are not in the map.
pub proof fn law_only_given_keys<V>(pairs: Seq<(Seq<char>, V)>, k: Seq<char>)
    ensures
        map_of_pairs(pairs).dom().contains(k) <==> exists|i: int| 0 <= i < pairs.len() && pairs[i].0 == k,
{
    lemma_map_of_pairs_dom(pairs, k);
}

} // verus!
