//! The per-call side-channel metadata bag.

use vstd::prelude::*;

verus! {

/// An order-irrelevant key/value side channel handed to every read and write
/// call, so that one chain link can attach metadata (a receive timestamp, a
/// loss estimate) and a downstream link can observe it without the packet
/// bytes being touched. A bag is scoped to one call; absence of a key is a
/// normal state, never an error.
///
/// Viewed as a `Map<u64, u64>`; the entry vector carries each key at most
/// once.
pub struct Attributes {
    entries: Vec<(u64, u64)>,
}

impl View for Attributes {
    type V = Map<u64, u64>;

    closed spec fn view(&self) -> Map<u64, u64> {
        map_of_entries(self.entries@)
    }
}

/// The map an entry sequence denotes; a later entry for a key overrides an
/// earlier one, though `Attributes` never stores a key twice.
pub closed spec fn map_of_entries(entries: Seq<(u64, u64)>) -> Map<u64, u64>
    decreases entries.len(),
{
    if entries.len() == 0 {
        Map::empty()
    } else {
        map_of_entries(entries.drop_last()).insert(entries.last().0, entries.last().1)
    }
}

impl Attributes {
    /// An empty bag.
    pub fn new() -> (r: Attributes)
        ensures
            r@ == Map::<u64, u64>::empty(),
    {
        Attributes { entries: Vec::new() }
    }

    /// The value stored under `key`, or `None` when the key is absent.
    pub fn get(&self, key: u64) -> (r: Option<u64>)
        ensures
            match r {
                Some(v) => self@.contains_key(key) && self@[key] == v,
                None => !self@.contains_key(key),
            },
    {
        let n = self.entries.len();
        let mut i: usize = n;
        while i > 0
            invariant
                n == self.entries@.len(),
                i <= n,
                forall|j: int| i <= j < n ==> (#[trigger] self.entries@[j]).0 != key,
            decreases i,
        {
            i -= 1;
            if self.entries[i].0 == key {
                proof {
                    lemma_map_of_entries_found(self.entries@, i as int, key);
                }
                return Some(self.entries[i].1);
            }
        }
        proof {
            lemma_map_of_entries_absent(self.entries@, key);
        }
        None
    }

    /// Stores `value` under `key`, replacing any earlier value.
    pub fn set_value(&mut self, key: u64, value: u64)
        ensures
            final(self)@ == old(self)@.insert(key, value),
    {
        let mut kept: Vec<(u64, u64)> = Vec::new();
        let n = self.entries.len();
        let mut i: usize = 0;
        while i < n
            invariant
                n == self.entries@.len(),
                i <= n,
                kept@ == self.entries@.subrange(0, i as int).filter(|e: (u64, u64)| e.0 != key),
            decreases n - i,
        {
            proof {
                assert(self.entries@.subrange(0, i + 1 as int).drop_last() == self.entries@
                    .subrange(0, i as int));
                reveal(Seq::filter);
            }
            let e = self.entries[i];
            if e.0 != key {
                kept.push(e);
            }
            i += 1;
        }
        proof {
            assert(self.entries@.subrange(0, n as int) == self.entries@);
        }
        kept.push((key, value));
        proof {
            lemma_filtered_insert(self.entries@, kept@, key, value);
        }
        self.entries = kept;
    }
}

proof fn lemma_map_of_entries_found(entries: Seq<(u64, u64)>, i: int, key: u64)
    requires
        0 <= i < entries.len(),
        entries[i].0 == key,
        forall|j: int| i < j < entries.len() ==> (#[trigger] entries[j]).0 != key,
    ensures
        map_of_entries(entries).contains_key(key),
        map_of_entries(entries)[key] == entries[i].1,
    decreases entries.len(),
{
    if i == entries.len() - 1 {
    } else {
        lemma_map_of_entries_found(entries.drop_last(), i, key);
    }
}

proof fn lemma_map_of_entries_absent(entries: Seq<(u64, u64)>, key: u64)
    requires
        forall|j: int| 0 <= j < entries.len() ==> (#[trigger] entries[j]).0 != key,
    ensures
        !map_of_entries(entries).contains_key(key),
    decreases entries.len(),
{
    if entries.len() > 0 {
        lemma_map_of_entries_absent(entries.drop_last(), key);
    }
}

proof fn lemma_filtered_insert(entries: Seq<(u64, u64)>, kept: Seq<(u64, u64)>, key: u64, value: u64)
    requires
        kept == entries.filter(|e: (u64, u64)| e.0 != key).push((key, value)),
    ensures
        map_of_entries(kept) == map_of_entries(entries).insert(key, value),
{
    lemma_map_of_filtered(entries, key);
    assert(kept.drop_last() == entries.filter(|e: (u64, u64)| e.0 != key));
    assert(map_of_entries(kept) == map_of_entries(entries.filter(|e: (u64, u64)| e.0 != key))
        .insert(key, value));
    assert(map_of_entries(entries).remove(key).insert(key, value) == map_of_entries(
        entries,
    ).insert(key, value));
}

proof fn lemma_map_of_filtered(entries: Seq<(u64, u64)>, key: u64)
    ensures
        map_of_entries(entries.filter(|e: (u64, u64)| e.0 != key)) == map_of_entries(
            entries,
        ).remove(key),
    decreases entries.len(),
{
    reveal(Seq::filter);
    if entries.len() == 0 {
        assert(map_of_entries(entries.filter(|e: (u64, u64)| e.0 != key)) =~= map_of_entries(
            entries,
        ).remove(key));
    } else {
        lemma_map_of_filtered(entries.drop_last(), key);
        let last = entries.last();
        if last.0 != key {
            assert(entries.filter(|e: (u64, u64)| e.0 != key) == entries.drop_last().filter(
                |e: (u64, u64)| e.0 != key,
            ).push(last));
            assert(entries.filter(|e: (u64, u64)| e.0 != key).drop_last() == entries.drop_last()
                .filter(|e: (u64, u64)| e.0 != key));
            assert(map_of_entries(entries.filter(|e: (u64, u64)| e.0 != key)) =~= map_of_entries(
                entries,
            ).remove(key));
        } else {
            assert(entries.filter(|e: (u64, u64)| e.0 != key) == entries.drop_last().filter(
                |e: (u64, u64)| e.0 != key,
            ));
            assert(map_of_entries(entries.filter(|e: (u64, u64)| e.0 != key)) =~= map_of_entries(
                entries,
            ).remove(key));
        }
    }
}

impl Clone for Attributes {
    /// A deep copy; cheap, since a bag holds only a handful of entries.
    fn clone(&self) -> (r: Self)
        ensures
            r@ == self@,
    {
        let mut entries: Vec<(u64, u64)> = Vec::new();
        let n = self.entries.len();
        let mut i: usize = 0;
        while i < n
            invariant
                n == self.entries@.len(),
                i <= n,
                entries@ == self.entries@.subrange(0, i as int),
            decreases n - i,
        {
            entries.push(self.entries[i]);
            i += 1;
        }
        proof {
            assert(entries@ == self.entries@);
        }
        Attributes { entries }
    }
}

} // verus!
