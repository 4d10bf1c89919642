//! The tag table: free-form key/value metadata carried by every entity.

use vstd::prelude::*;

verus! {

/// The table that a list of key/value pairs builds up when the pairs are
/// entered one after the other: a later pair replaces an earlier one with
/// the same key.
pub open spec fn pairs_map(pairs: Seq<(String, String)>) -> Map<Seq<char>, Seq<char>>
    decreases pairs.len(),
{
    if pairs.len() == 0 {
        Map::empty()
    } else {
        pairs_map(pairs.drop_last()).insert(pairs.last().0@, pairs.last().1@)
    }
}

/// True when no two pairs share a key.
pub open spec fn distinct_keys(pairs: Seq<(String, String)>) -> bool {
    forall|i: int, j: int| 0 <= i < j < pairs.len() ==> (#[trigger] pairs[i]).0@ != (#[trigger] pairs[j]).0@
}

/// A key that no pair carries is not in the table.
pub proof fn lemma_pairs_map_absent(pairs: Seq<(String, String)>, key: Seq<char>)
    requires
        forall|i: int| 0 <= i < pairs.len() ==> (#[trigger] pairs[i]).0@ != key,
    ensures
        !pairs_map(pairs).contains_key(key),
    decreases pairs.len(),
{
    if pairs.len() > 0 {
        lemma_pairs_map_absent(pairs.drop_last(), key);
    }
}

/// With distinct keys, each pair is found in the table as it stands in the list.
pub proof fn lemma_pairs_map_at(pairs: Seq<(String, String)>, i: int)
    requires
        distinct_keys(pairs),
        0 <= i < pairs.len(),
    ensures
        pairs_map(pairs).contains_key(pairs[i].0@),
        pairs_map(pairs)[pairs[i].0@] == pairs[i].1@,
    decreases pairs.len(),
{
    if i < pairs.len() - 1 {
        let front = pairs.drop_last();
        assert(front[i] == pairs[i]);
        assert(distinct_keys(front)) by {
            assert forall|a: int, b: int| 0 <= a < b < front.len() implies (#[trigger] front[a]).0@
                != (#[trigger] front[b]).0@ by {
                assert(front[a] == pairs[a] && front[b] == pairs[b]);
            }
        }
        lemma_pairs_map_at(front, i);
        assert(pairs[i].0@ != pairs[pairs.len() - 1].0@);
    }
}

/// With distinct keys, replacing the value of one pair is the same as
/// entering the new value under that key.
pub proof fn lemma_pairs_map_update(pairs: Seq<(String, String)>, i: int, entry: (String, String))
    requires
        distinct_keys(pairs),
        0 <= i < pairs.len(),
        entry.0@ == pairs[i].0@,
    ensures
        pairs_map(pairs.update(i, entry)) == pairs_map(pairs).insert(entry.0@, entry.1@),
        distinct_keys(pairs.update(i, entry)),
    decreases pairs.len(),
{
    let changed = pairs.update(i, entry);
    assert(distinct_keys(changed)) by {
        assert forall|a: int, b: int| 0 <= a < b < changed.len() implies (#[trigger] changed[a]).0@
            != (#[trigger] changed[b]).0@ by {
            assert(changed[a].0@ == pairs[a].0@ && changed[b].0@ == pairs[b].0@);
        }
    }
    let front = pairs.drop_last();
    if i == pairs.len() - 1 {
        assert(changed.drop_last() =~= front);
        assert(pairs_map(changed) =~= pairs_map(pairs).insert(entry.0@, entry.1@));
    } else {
        assert(front[i] == pairs[i]);
        assert(distinct_keys(front)) by {
            assert forall|a: int, b: int| 0 <= a < b < front.len() implies (#[trigger] front[a]).0@
                != (#[trigger] front[b]).0@ by {
                assert(front[a] == pairs[a] && front[b] == pairs[b]);
            }
        }
        lemma_pairs_map_update(front, i, entry);
        assert(changed.drop_last() =~= front.update(i, entry));
        assert(changed.last() == pairs.last());
        assert(pairs[i].0@ != pairs[pairs.len() - 1].0@);
        assert(pairs_map(changed) =~= pairs_map(pairs).insert(entry.0@, entry.1@));
    }
}

/// With distinct keys, the table has one entry per pair.
pub proof fn lemma_pairs_map_len(pairs: Seq<(String, String)>)
    requires
        distinct_keys(pairs),
    ensures
        pairs_map(pairs).dom().finite(),
        pairs_map(pairs).dom().len() == pairs.len(),
    decreases pairs.len(),
{
    if pairs.len() > 0 {
        let front = pairs.drop_last();
        assert(distinct_keys(front)) by {
            assert forall|a: int, b: int| 0 <= a < b < front.len() implies (#[trigger] front[a]).0@
                != (#[trigger] front[b]).0@ by {
                assert(front[a] == pairs[a] && front[b] == pairs[b]);
            }
        }
        lemma_pairs_map_len(front);
        assert forall|a: int| 0 <= a < front.len() implies (#[trigger] front[a]).0@
            != pairs.last().0@ by {
            assert(front[a] == pairs[a]);
            assert(pairs[a].0@ != pairs[pairs.len() - 1].0@);
        }
        lemma_pairs_map_absent(front, pairs.last().0@);
        assert(pairs_map(pairs).dom() =~= pairs_map(front).dom().insert(pairs.last().0@));
    }
}

/// A key that is in the table is carried by some pair.
pub proof fn lemma_pairs_map_present(pairs: Seq<(String, String)>, key: Seq<char>)
    requires
        pairs_map(pairs).contains_key(key),
    ensures
        exists|i: int| 0 <= i < pairs.len() && (#[trigger] pairs[i]).0@ == key,
{
    if !(exists|i: int| 0 <= i < pairs.len() && (#[trigger] pairs[i]).0@ == key) {
        lemma_pairs_map_absent(pairs, key);
    }
}

/// The order of the pairs does not matter: two lists, each with distinct
/// keys, that hold the same pairs make the same table.
pub proof fn lemma_pairs_map_order_free(a: Seq<(String, String)>, b: Seq<(String, String)>)
    requires
        distinct_keys(a),
        distinct_keys(b),
        forall|i: int|
            0 <= i < a.len() ==> exists|j: int|
                0 <= j < b.len() && (#[trigger] b[j]).0@ == (#[trigger] a[i]).0@ && b[j].1@
                    == a[i].1@,
        forall|j: int|
            0 <= j < b.len() ==> exists|i: int|
                0 <= i < a.len() && (#[trigger] a[i]).0@ == (#[trigger] b[j]).0@ && a[i].1@
                    == b[j].1@,
    ensures
        pairs_map(a) == pairs_map(b),
{
    let ma = pairs_map(a);
    let mb = pairs_map(b);
    assert forall|key: Seq<char>| #[trigger] ma.dom().contains(key) implies mb.dom().contains(key)
        && mb[key] == ma[key] by {
        lemma_pairs_map_present(a, key);
        let i = choose|i: int| 0 <= i < a.len() && (#[trigger] a[i]).0@ == key;
        lemma_pairs_map_at(a, i);
        let j = choose|j: int|
            0 <= j < b.len() && (#[trigger] b[j]).0@ == a[i].0@ && b[j].1@ == a[i].1@;
        lemma_pairs_map_at(b, j);
    }
    assert forall|key: Seq<char>| #[trigger] mb.dom().contains(key) implies ma.dom().contains(
        key,
    ) by {
        lemma_pairs_map_present(b, key);
        let j = choose|j: int| 0 <= j < b.len() && (#[trigger] b[j]).0@ == key;
        let i = choose|i: int|
            0 <= i < a.len() && (#[trigger] a[i]).0@ == b[j].0@ && a[i].1@ == b[j].1@;
        lemma_pairs_map_at(a, i);
    }
    assert(pairs_map(a) =~= pairs_map(b));
}

/// Key/value metadata of one entity. No key occurs twice; a table without
/// tags is empty, never absent.
#[derive(Debug)]
pub struct TagTable {
    entries: Vec<(String, String)>,
}

impl View for TagTable {
    type V = Map<Seq<char>, Seq<char>>;

    closed spec fn view(&self) -> Map<Seq<char>, Seq<char>> {
        pairs_map(self.entries@)
    }
}

impl TagTable {
    #[verifier::type_invariant]
    spec fn well_formed(self) -> bool {
        distinct_keys(self.entries@)
    }

    /// The empty table.
    pub fn new() -> (r: TagTable)
        ensures
            r@ == Map::<Seq<char>, Seq<char>>::empty(),
    {
        TagTable { entries: Vec::new() }
    }

    /// Enters `value` under `key`, in place of what stood there before.
    pub fn insert(&mut self, key: String, value: String)
        ensures
            final(self)@ == old(self)@.insert(key@, value@),
    {
        proof {
            use_type_invariant(&*self);
        }
        let mut entries = copy_pairs(&self.entries);
        let mut i: usize = 0;
        while i < entries.len()
            invariant
                i <= entries.len(),
                entries@ == self.entries@,
                self.entries == old(self).entries,
                distinct_keys(entries@),
                forall|j: int| 0 <= j < i ==> (#[trigger] entries@[j]).0@ != key@,
            decreases entries.len() - i,
        {
            if entries[i].0 == key {
                proof {
                    lemma_pairs_map_update(entries@, i as int, (key, value));
                }
                entries.set(i, (key, value));
                self.entries = entries;
                return ;
            }
            i = i + 1;
        }
        proof {
            let grown = entries@.push((key, value));
            assert(grown.drop_last() =~= entries@);
            assert(distinct_keys(grown));
        }
        entries.push((key, value));
        self.entries = entries;
    }

    /// The value entered under `key`, if there is one.
    pub fn get(&self, key: &str) -> (r: Option<&String>)
        ensures
            match r {
                Some(v) => self@.contains_key(key@) && self@[key@] == v@,
                None => !self@.contains_key(key@),
            },
    {
        proof {
            use_type_invariant(self);
        }
        let wanted = key.to_owned();
        let mut i: usize = 0;
        while i < self.entries.len()
            invariant
                i <= self.entries.len(),
                wanted@ == key@,
                distinct_keys(self.entries@),
                forall|j: int| 0 <= j < i ==> (#[trigger] self.entries@[j]).0@ != key@,
            decreases self.entries.len() - i,
        {
            if self.entries[i].0 == wanted {
                proof {
                    lemma_pairs_map_at(self.entries@, i as int);
                }
                return Some(&self.entries[i].1);
            }
            i = i + 1;
        }
        proof {
            lemma_pairs_map_absent(self.entries@, key@);
        }
        None
    }

    /// The number of tags.
    pub fn len(&self) -> (r: usize)
        ensures
            self@.dom().finite(),
            r == self@.dom().len(),
    {
        proof {
            use_type_invariant(self);
            lemma_pairs_map_len(self.entries@);
        }
        self.entries.len()
    }

    /// The tags as a list of pairs, each key once.
    pub fn pairs(&self) -> (r: &Vec<(String, String)>)
        ensures
            distinct_keys(r@),
            pairs_map(r@) == self@,
    {
        proof {
            use_type_invariant(self);
        }
        &self.entries
    }

    /// A copy of the table.
    pub fn duplicate(&self) -> (r: TagTable)
        ensures
            r@ == self@,
    {
        proof {
            use_type_invariant(self);
        }
        TagTable { entries: copy_pairs(&self.entries) }
    }
}

/// Copies a list of pairs, string by string.
pub fn copy_pairs(pairs: &Vec<(String, String)>) -> (r: Vec<(String, String)>)
    ensures
        r@ == pairs@,
{
    let mut copy: Vec<(String, String)> = Vec::new();
    let mut i: usize = 0;
    while i < pairs.len()
        invariant
            i <= pairs.len(),
            copy@ == pairs@.take(i as int),
        decreases pairs.len() - i,
    {
        let key = pairs[i].0.clone();
        let value = pairs[i].1.clone();
        copy.push((key, value));
        assert(copy@ =~= pairs@.take(i + 1));
        i = i + 1;
    }
    assert(copy@ =~= pairs@);
    copy
}

} // verus!
