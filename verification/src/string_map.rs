//! A map from text to text: labels, environment variables.

use vstd::prelude::*;

verus! {

/// No key occurs twice among `pairs`.
pub open spec fn keys_unique(pairs: Seq<(Seq<char>, Seq<char>)>) -> bool {
    forall|i: int, j: int| 0 <= i < j < pairs.len() ==> pairs[i].0 != pairs[j].0
}

/// The map that `pairs` describe, a later pair winning over an earlier one.
pub open spec fn pairs_map(pairs: Seq<(Seq<char>, Seq<char>)>) -> Map<Seq<char>, Seq<char>>
    decreases pairs.len(),
{
    if pairs.len() == 0 {
        Map::empty()
    } else {
        pairs_map(pairs.drop_last()).insert(pairs.last().0, pairs.last().1)
    }
}

/// With distinct keys, the map holds exactly the keys of `pairs`, each with its value.
pub proof fn lemma_pairs_map(pairs: Seq<(Seq<char>, Seq<char>)>)
    requires
        keys_unique(pairs),
    ensures
        pairs_map(pairs).dom().finite(),
        pairs_map(pairs).len() == pairs.len(),
        forall|k: Seq<char>|
            #[trigger] pairs_map(pairs).contains_key(k) <==> exists|i: int|
                0 <= i < pairs.len() && pairs[i].0 == k,
        forall|i: int| 0 <= i < pairs.len() ==> #[trigger] pairs_map(pairs)[pairs[i].0] == pairs[i].1,
    decreases pairs.len(),
{
    if pairs.len() > 0 {
        let init = pairs.drop_last();
        assert(keys_unique(init));
        lemma_pairs_map(init);
        let last = pairs.last();
        assert(!pairs_map(init).contains_key(last.0)) by {
            if pairs_map(init).contains_key(last.0) {
                let i = choose|i: int| 0 <= i < init.len() && init[i].0 == last.0;
                assert(pairs[i].0 == pairs[pairs.len() - 1].0);
            }
        }
        assert forall|k: Seq<char>|
            #[trigger] pairs_map(pairs).contains_key(k) implies exists|i: int|
                0 <= i < pairs.len() && pairs[i].0 == k by {
            if k != last.0 {
                let i = choose|i: int| 0 <= i < init.len() && init[i].0 == k;
                assert(pairs[i].0 == k);
            } else {
                assert(pairs[pairs.len() - 1].0 == k);
            }
        }
        assert forall|k: Seq<char>|
            (exists|i: int| 0 <= i < pairs.len() && pairs[i].0 == k) implies
                #[trigger] pairs_map(pairs).contains_key(k) by {
            let i = choose|i: int| 0 <= i < pairs.len() && pairs[i].0 == k;
            if i < pairs.len() - 1 {
                assert(init[i].0 == k);
            }
        }
        assert forall|i: int| 0 <= i < pairs.len() implies #[trigger] pairs_map(pairs)[pairs[i].0]
            == pairs[i].1 by {
            if i < pairs.len() - 1 {
                assert(init[i] == pairs[i]);
                assert(pairs[i].0 != last.0);
            }
        }
    }
}

/// The text of each entry of a list of key/value pairs.
pub open spec fn entries_view(entries: Seq<(String, String)>) -> Seq<(Seq<char>, Seq<char>)> {
    entries.map_values(|e: (String, String)| (e.0@, e.1@))
}

/// A map from text keys to text values; each key occurs once.
pub struct StringMap {
    entries: Vec<(String, String)>,
}

impl View for StringMap {
    type V = Map<Seq<char>, Seq<char>>;

    open spec fn view(&self) -> Map<Seq<char>, Seq<char>> {
        pairs_map(self.pairs())
    }
}

impl StringMap {
    /// The entries, in the order in which their keys were first inserted.
    pub closed spec fn pairs(&self) -> Seq<(Seq<char>, Seq<char>)> {
        entries_view(self.entries@)
    }

    #[verifier::type_invariant]
    closed spec fn keys_distinct(&self) -> bool {
        keys_unique(self.pairs())
    }

    /// An empty map.
    pub fn new() -> (m: StringMap)
        ensures
            m@ == Map::<Seq<char>, Seq<char>>::empty(),
            m.pairs() == Seq::<(Seq<char>, Seq<char>)>::empty(),
    {
        let m = StringMap { entries: Vec::new() };
        assert(m.pairs() =~= Seq::<(Seq<char>, Seq<char>)>::empty());
        m
    }

    /// The position of `key` among the entries, if it is there.
    fn find(&self, key: &String) -> (r: Option<usize>)
        ensures
            match r {
                Some(i) => i < self.pairs().len() && self.pairs()[i as int].0 == key@,
                None => forall|i: int| 0 <= i < self.pairs().len() ==> self.pairs()[i].0 != key@,
            },
    {
        let mut i: usize = 0;
        while i < self.entries.len()
            invariant
                i <= self.entries@.len(),
                forall|j: int| 0 <= j < i ==> self.pairs()[j].0 != key@,
            decreases self.entries@.len() - i,
        {
            if self.entries[i].0 == *key {
                return Some(i);
            }
            i = i + 1;
        }
        None
    }

    /// Whether `key` has a value.
    pub fn contains_key(&self, key: &String) -> (b: bool)
        ensures
            b == self@.contains_key(key@),
    {
        proof {
            use_type_invariant(self);
            lemma_pairs_map(self.pairs());
        }
        self.find(key).is_some()
    }

    /// The value of `key`, if it has one.
    pub fn get(&self, key: &String) -> (r: Option<String>)
        ensures
            match r {
                Some(v) => self@.contains_key(key@) && self@[key@] == v@,
                None => !self@.contains_key(key@),
            },
    {
        proof {
            use_type_invariant(self);
            lemma_pairs_map(self.pairs());
        }
        match self.find(key) {
            Some(i) => Some(self.entries[i].1.clone()),
            None => None,
        }
    }

    /// The number of keys.
    pub fn len(&self) -> (n: usize)
        ensures
            n == self@.len(),
            n == self.pairs().len(),
    {
        proof {
            use_type_invariant(self);
            lemma_pairs_map(self.pairs());
        }
        self.entries.len()
    }

    /// Sets `key` to `value`, replacing any value it had; a new key goes last.
    pub fn insert(&mut self, key: String, value: String)
        ensures
            final(self)@ == old(self)@.insert(key@, value@),
            old(self)@.contains_key(key@) ==> exists|i: int|
                0 <= i < old(self).pairs().len() && old(self).pairs()[i].0 == key@
                    && final(self).pairs() == old(self).pairs().update(i, (key@, value@)),
            !old(self)@.contains_key(key@) ==> final(self).pairs() == old(self).pairs().push(
                (key@, value@),
            ),
    {
        proof {
            use_type_invariant(&*self);
            lemma_pairs_map(self.pairs());
        }
        let ghost old_pairs = self.pairs();
        let found = self.find(&key);
        let mut entries: Vec<(String, String)> = Vec::new();
        std::mem::swap(&mut entries, &mut self.entries);
        assert(entries_view(entries@) == old_pairs);
        match found {
            Some(i) => {
                let ghost k = key@;
                let ghost v = value@;
                entries.set(i, (key, value));
                let ghost new_pairs = entries_view(entries@);
                assert(new_pairs =~= old_pairs.update(i as int, (k, v)));
                assert(keys_unique(new_pairs));
                proof {
                    lemma_pairs_map(old_pairs);
                    lemma_pairs_map(new_pairs);
                    assert forall|x: Seq<char>| #[trigger] pairs_map(new_pairs).contains_key(x)
                        == pairs_map(old_pairs).insert(k, v).contains_key(x) by {
                        if pairs_map(old_pairs).contains_key(x) && x != k {
                            let j = choose|j: int| 0 <= j < old_pairs.len() && old_pairs[j].0 == x;
                            assert(new_pairs[j].0 == x);
                        }
                        if pairs_map(new_pairs).contains_key(x) && x != k {
                            let j = choose|j: int| 0 <= j < new_pairs.len() && new_pairs[j].0 == x;
                            assert(old_pairs[j].0 == x);
                        }
                        assert(new_pairs[i as int].0 == k);
                    }
                    assert forall|x: Seq<char>| #[trigger] pairs_map(new_pairs).contains_key(x)
                        implies pairs_map(new_pairs)[x] == pairs_map(old_pairs).insert(k, v)[x] by {
                        let j = choose|j: int| 0 <= j < new_pairs.len() && new_pairs[j].0 == x;
                        if j != i {
                            assert(old_pairs[j] == new_pairs[j]);
                        }
                    }
                    assert(pairs_map(new_pairs) =~= pairs_map(old_pairs).insert(k, v));
                }
                self.entries = entries;
            },
            None => {
                let ghost k = key@;
                let ghost v = value@;
                entries.push((key, value));
                let ghost new_pairs = entries_view(entries@);
                assert(new_pairs =~= old_pairs.push((k, v)));
                assert(new_pairs.drop_last() =~= old_pairs);
                self.entries = entries;
            },
        }
    }

    /// Sets `key` to `value` unless it already has a value, as `entry(..).or_insert(..)` does.
    pub fn insert_if_absent(&mut self, key: String, value: String)
        ensures
            final(self)@ == if old(self)@.contains_key(key@) {
                old(self)@
            } else {
                old(self)@.insert(key@, value@)
            },
            final(self).pairs() == if old(self)@.contains_key(key@) {
                old(self).pairs()
            } else {
                old(self).pairs().push((key@, value@))
            },
    {
        if !self.contains_key(&key) {
            self.insert(key, value);
        }
    }

    /// A copy of the entries, in order.
    pub fn entries(&self) -> (r: Vec<(String, String)>)
        ensures
            entries_view(r@) == self.pairs(),
    {
        let mut r: Vec<(String, String)> = Vec::new();
        let mut i: usize = 0;
        while i < self.entries.len()
            invariant
                i <= self.entries@.len(),
                r@.len() == i,
                entries_view(r@) == self.pairs().take(i as int),
            decreases self.entries@.len() - i,
        {
            let k = self.entries[i].0.clone();
            let v = self.entries[i].1.clone();
            let ghost before = r@;
            r.push((k, v));
            i = i + 1;
            assert forall|j: int| 0 <= j < i implies #[trigger] entries_view(r@)[j] == self.pairs().take(i as int)[j] by {
                if j < i - 1 {
                    assert(r@[j] == before[j]);
                    assert(entries_view(before)[j] == self.pairs().take(i - 1)[j]);
                }
            }
            assert(entries_view(r@) =~= self.pairs().take(i as int));
        }
        assert(self.pairs().take(i as int) =~= self.pairs());
        r
    }

    /// A copy of this map.
    pub fn duplicate(&self) -> (r: StringMap)
        ensures
            r.pairs() == self.pairs(),
            r@ == self@,
    {
        proof {
            use_type_invariant(self);
        }
        StringMap { entries: self.entries() }
    }
}

} // verus!
