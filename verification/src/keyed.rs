//! Table from text keys to values.
use crate::text::same_text;
use vstd::prelude::*;

verus! {

/// A table in which every key occurs once.
pub struct KeyedTable<V> {
    entries: Vec<(String, V)>,
}

/// The keys of a row of entries.
spec fn entry_keys<V>(entries: Seq<(String, V)>) -> Set<Seq<char>> {
    Set::new(|key: Seq<char>| exists|i: int| 0 <= i < entries.len() && #[trigger] entries[i].0@ == key)
}

/// The keys of the entries whose value has a property.
spec fn matching_keys<V>(entries: Seq<(String, V)>, property: spec_fn(V) -> bool) -> Set<Seq<char>>
    decreases entries.len(),
{
    if entries.len() == 0 {
        Set::empty()
    } else {
        let before = matching_keys(entries.drop_last(), property);
        if property(entries.last().1) {
            before.insert(entries.last().0@)
        } else {
            before
        }
    }
}

spec fn distinct_keys<V>(entries: Seq<(String, V)>) -> bool {
    forall|i: int, j: int|
        0 <= i < j < entries.len() ==> (#[trigger] entries[i]).0@ != (#[trigger] entries[j]).0@
}

proof fn matching_keys_are_counted<V>(entries: Seq<(String, V)>, property: spec_fn(V) -> bool)
    requires
        distinct_keys(entries),
    ensures
        matching_keys(entries, property).finite(),
        matching_keys(entries, property).len() <= entries.len(),
        (forall|i: int| 0 <= i < entries.len() ==> property((#[trigger] entries[i]).1))
            ==> matching_keys(entries, property).len() == entries.len(),
        forall|key: Seq<char>|
            matching_keys(entries, property).contains(key) <==> exists|i: int|
                0 <= i < entries.len() && #[trigger] entries[i].0@ == key && property(entries[i].1),
    decreases entries.len(),
{
    if entries.len() > 0 {
        let init = entries.drop_last();
        let last = entries.last();
        let before = matching_keys(init, property);
        assert(forall|i: int| 0 <= i < init.len() ==> init[i] == entries[i]);
        assert(distinct_keys(init));
        matching_keys_are_counted(init, property);
        let keys = matching_keys(entries, property);
        assert(!before.contains(last.0@));
        assert forall|key: Seq<char>| keys.contains(key) <==> exists|i: int|
            0 <= i < entries.len() && #[trigger] entries[i].0@ == key && property(
                entries[i].1,
            ) by {
            if keys.contains(key) {
                if before.contains(key) {
                    let i = choose|i: int|
                        0 <= i < init.len() && #[trigger] init[i].0@ == key && property(init[i].1);
                    assert(entries[i].0@ == key && property(entries[i].1));
                } else {
                    assert(entries[entries.len() - 1].0@ == key);
                }
            }
            if exists|i: int|
                0 <= i < entries.len() && #[trigger] entries[i].0@ == key && property(entries[i].1) {
                let i = choose|i: int|
                    0 <= i < entries.len() && #[trigger] entries[i].0@ == key && property(
                        entries[i].1,
                    );
                if i < init.len() {
                    assert(init[i].0@ == key && property(init[i].1));
                }
            }
        }
    }
}

/// The entries of `table` whose value has a property.
pub open spec fn keeping<V>(
    table: Map<Seq<char>, V>,
    property: spec_fn(V) -> bool,
) -> Map<Seq<char>, V> {
    table.restrict(table.dom().filter(|key: Seq<char>| property(table[key])))
}

/// The number of entries of `table` whose value has a property.
pub open spec fn count_of<V>(table: Map<Seq<char>, V>, property: spec_fn(V) -> bool) -> nat {
    keeping(table, property).dom().len()
}

/// What is kept of a table: exactly the entries whose value has the property, as they were.
pub proof fn keeping_keeps<V>(table: Map<Seq<char>, V>, property: spec_fn(V) -> bool, key: Seq<char>)
    ensures
        keeping(table, property).contains_key(key) <==> table.contains_key(key) && property(table[key]),
        keeping(table, property).contains_key(key) ==> keeping(table, property)[key] == table[key],
{
}

/// Counting: a table without entries has none to count, and an entry under a new key adds one where
/// its value has the property and else none.
pub proof fn counting_counts<V>(
    table: Map<Seq<char>, V>,
    property: spec_fn(V) -> bool,
    key: Seq<char>,
    value: V,
)
    requires
        table.dom().finite(),
        !table.contains_key(key),
    ensures
        count_of(Map::<Seq<char>, V>::empty(), property) == 0,
        count_of(table.insert(key, value), property) == count_of(table, property) + if property(
            value,
        ) {
            1int
        } else {
            0
        },
{
    let none = Map::<Seq<char>, V>::empty();
    assert(keeping(none, property).dom() =~= Set::<Seq<char>>::empty());
    let before = keeping(table, property).dom();
    let after = keeping(table.insert(key, value), property).dom();
    vstd::set_lib::lemma_len_subset(before, table.dom());
    if property(value) {
        assert(after =~= before.insert(key));
    } else {
        assert(after =~= before);
    }
}

impl<V> View for KeyedTable<V> {
    type V = Map<Seq<char>, V>;

    closed spec fn view(&self) -> Map<Seq<char>, V> {
        Map::new(
            |key: Seq<char>| entry_keys(self.entries@).contains(key),
            |key: Seq<char>|
                self.entries@[choose|i: int|
                    0 <= i < self.entries@.len() && #[trigger] self.entries@[i].0@ == key].1,
        )
    }
}

impl<V> KeyedTable<V> {
    /// No key occurs twice.
    pub closed spec fn wf(&self) -> bool {
        distinct_keys(self.entries@)
    }

    proof fn entry_at(&self, i: int)
        requires
            self.wf(),
            0 <= i < self.entries@.len(),
        ensures
            self@.contains_key(self.entries@[i].0@),
            self@[self.entries@[i].0@] == self.entries@[i].1,
    {
    }

    /// A table without entries.
    pub fn new() -> (table: Self)
        ensures
            table.wf(),
            table@ == Map::<Seq<char>, V>::empty(),
    {
        let table: Self = KeyedTable { entries: Vec::new() };
        proof {
            assert(table@ =~= Map::<Seq<char>, V>::empty());
        }
        table
    }

    /// The number of entries.
    pub fn len(&self) -> (count: usize)
        requires
            self.wf(),
        ensures
            count == self@.dom().len(),
    {
        proof {
            matching_keys_are_counted(self.entries@, |v: V| true);
            assert(self@.dom() =~= matching_keys(self.entries@, |v: V| true));
        }
        self.entries.len()
    }

    fn position(&self, key: &str) -> (place: Option<usize>)
        requires
            self.wf(),
        ensures
            place is Some <==> self@.contains_key(key@),
            place matches Some(i) ==> i < self.entries@.len() && self.entries@[i as int].0@ == key@
                && self@[key@] == self.entries@[i as int].1,
    {
        let mut i: usize = 0;
        while i < self.entries.len()
            invariant
                self.wf(),
                i <= self.entries@.len(),
                forall|j: int| 0 <= j < i ==> (#[trigger] self.entries@[j]).0@ != key@,
            decreases self.entries.len() - i,
        {
            if same_text(self.entries[i].0.as_str(), key) {
                proof {
                    self.entry_at(i as int);
                }
                return Some(i);
            }
            i = i + 1;
        }
        None
    }

    /// Whether there is an entry under the key.
    pub fn contains_key(&self, key: &str) -> (present: bool)
        requires
            self.wf(),
        ensures
            present == self@.contains_key(key@),
    {
        self.position(key).is_some()
    }

    /// The value under the key.
    pub fn get(&self, key: &str) -> (value: Option<&V>)
        requires
            self.wf(),
        ensures
            match value {
                Some(found) => self@.contains_key(key@) && *found == self@[key@],
                None => !self@.contains_key(key@),
            },
    {
        match self.position(key) {
            Some(i) => Some(&self.entries[i].1),
            None => None,
        }
    }

    /// Takes the entry under the key out of the table.
    pub fn remove(&mut self, key: &str) -> (value: Option<V>)
        requires
            old(self).wf(),
        ensures
            final(self).wf(),
            final(self)@ == old(self)@.remove(key@),
            match value {
                Some(found) => old(self)@.contains_key(key@) && found == old(self)@[key@],
                None => !old(self)@.contains_key(key@),
            },
    {
        match self.position(key) {
            Some(i) => {
                let ghost before = *self;
                let entry: (String, V) = self.entries.swap_remove(i);
                proof {
                    without_entry(before, *self, i as int);
                }
                Some(entry.1)
            },
            None => {
                proof {
                    assert(self@ =~= self@.remove(key@));
                }
                None
            },
        }
    }

    /// Puts a value under the key, in place of the one that stood there.
    pub fn insert(&mut self, key: &str, value: V)
        requires
            old(self).wf(),
        ensures
            final(self).wf(),
            final(self)@ == old(self)@.insert(key@, value),
    {
        let ghost start = self@;
        let replaced: Option<V> = self.remove(key);
        let ghost before = *self;
        self.entries.push((key.to_owned(), value));
        proof {
            let after = *self;
            let n = before.entries@.len() as int;
            assert(after.entries@.drop_last() =~= before.entries@);
            assert forall|i: int| 0 <= i < n implies (#[trigger] before.entries@[i]).0@ != key@ by {
                before.entry_at(i);
            }
            assert(after.wf());
            assert forall|k: Seq<char>| after@.contains_key(k) <==> before@.contains_key(k) || k
                == key@ by {
                if after@.contains_key(k) {
                    let i = choose|i: int|
                        0 <= i < after.entries@.len() && #[trigger] after.entries@[i].0@ == k;
                    if i < n {
                        assert(before.entries@[i].0@ == k);
                    }
                }
                if before@.contains_key(k) {
                    let i = choose|i: int|
                        0 <= i < before.entries@.len() && #[trigger] before.entries@[i].0@ == k;
                    assert(after.entries@[i].0@ == k);
                }
                if k == key@ {
                    assert(after.entries@[n].0@ == k);
                }
            }
            assert forall|k: Seq<char>| after@.contains_key(k) implies #[trigger] after@[k]
                == start.insert(key@, value)[k] by {
                let i = choose|i: int|
                    0 <= i < after.entries@.len() && #[trigger] after.entries@[i].0@ == k;
                after.entry_at(i);
                if i < n {
                    before.entry_at(i);
                }
            }
            assert(after@ =~= start.insert(key@, value));
        }
    }

    /// Drops the entries whose value `keep` refuses.
    pub(crate) fn retain<F: Fn(&V) -> bool>(&mut self, keep: F, property: Ghost<spec_fn(V) -> bool>)
        requires
            old(self).wf(),
            forall|v: &V| #[trigger] call_requires(keep, (v,)),
            forall|v: &V, kept: bool|
                #[trigger] call_ensures(keep, (v,), kept) ==> kept == property@(*v),
        ensures
            final(self).wf(),
            final(self)@ == keeping(old(self)@, property@),
    {
        let ghost start = self@;
        let mut i: usize = 0;
        while i < self.entries.len()
            invariant
                self.wf(),
                i <= self.entries@.len(),
                forall|v: &V| #[trigger] call_requires(keep, (v,)),
                forall|v: &V, kept: bool|
                    #[trigger] call_ensures(keep, (v,), kept) ==> kept == property@(*v),
                forall|j: int| 0 <= j < i ==> property@((#[trigger] self.entries@[j]).1),
                self@.submap_of(start),
                keeping(start, property@).submap_of(self@),
            decreases self.entries.len() - i,
        {
            if keep(&self.entries[i].1) {
                i = i + 1;
            } else {
                let ghost before = *self;
                let dropped: (String, V) = self.entries.swap_remove(i);
                proof {
                    before.entry_at(i as int);
                    without_entry(before, *self, i as int);
                }
            }
        }
        proof {
            assert forall|k: Seq<char>| self@.contains_key(k) implies property@(
                #[trigger] self@[k],
            ) by {
                let j = choose|j: int|
                    0 <= j < self.entries@.len() && #[trigger] self.entries@[j].0@ == k;
                self.entry_at(j);
            }
            let kept = keeping(start, property@);
            assert forall|k: Seq<char>| self@.dom().contains(k) <==> kept.dom().contains(k) by {
                if self@.dom().contains(k) {
                    assert(start.dom().contains(k) && start[k] == self@[k]);
                    assert(property@(self@[k]));
                }
            }
            assert(self@.dom() =~= kept.dom());
            assert(self@ =~= kept);
        }
    }

    /// Counts the entries whose value `wanted` picks.
    pub(crate) fn count<F: Fn(&V) -> bool>(
        &self,
        wanted: F,
        property: Ghost<spec_fn(V) -> bool>,
    ) -> (count: usize)
        requires
            self.wf(),
            forall|v: &V| #[trigger] call_requires(wanted, (v,)),
            forall|v: &V, picked: bool|
                #[trigger] call_ensures(wanted, (v,), picked) ==> picked == property@(*v),
        ensures
            count == count_of(self@, property@),
    {
        let mut i: usize = 0;
        let mut count: usize = 0;
        while i < self.entries.len()
            invariant
                self.wf(),
                count <= i <= self.entries@.len(),
                forall|v: &V| #[trigger] call_requires(wanted, (v,)),
                forall|v: &V, picked: bool|
                    #[trigger] call_ensures(wanted, (v,), picked) ==> picked == property@(*v),
                count == matching_keys(self.entries@.take(i as int), property@).len(),
            decreases self.entries.len() - i,
        {
            let ghost prefix = self.entries@.take(i as int);
            proof {
                let next = self.entries@.take(i + 1);
                assert(next.drop_last() =~= prefix);
                assert(forall|j: int| 0 <= j < i ==> prefix[j] == self.entries@[j]);
                assert(distinct_keys(prefix));
                matching_keys_are_counted(prefix, property@);
                assert(next.last() == self.entries@[i as int]);
            }
            if wanted(&self.entries[i].1) {
                count = count + 1;
            }
            i = i + 1;
        }
        proof {
            assert(self.entries@.take(i as int) =~= self.entries@);
            matching_keys_are_counted(self.entries@, property@);
            let keys = matching_keys(self.entries@, property@);
            assert forall|k: Seq<char>| keys.contains(k) <==> #[trigger] keeping(
                self@,
                property@,
            ).dom().contains(k) by {
                if keys.contains(k) {
                    let j = choose|j: int|
                        0 <= j < self.entries@.len() && #[trigger] self.entries@[j].0@ == k
                            && property@(self.entries@[j].1);
                    self.entry_at(j);
                }
                if keeping(self@, property@).dom().contains(k) {
                    let j = choose|j: int|
                        0 <= j < self.entries@.len() && #[trigger] self.entries@[j].0@ == k;
                    self.entry_at(j);
                }
            }
            assert(keys =~= keeping(self@, property@).dom());
        }
        count
    }
}

/// Swapping an entry out removes its key.
proof fn without_entry<V>(before: KeyedTable<V>, after: KeyedTable<V>, i: int)
    requires
        before.wf(),
        0 <= i < before.entries@.len(),
        after.entries@ == before.entries@.update(i, before.entries@.last()).drop_last(),
    ensures
        after.wf(),
        after@ == before@.remove(before.entries@[i].0@),
{
    let key = before.entries@[i].0@;
    let n = before.entries@.len() as int;
    assert forall|j: int, k: int| 0 <= j < k < after.entries@.len() implies (
    #[trigger] after.entries@[j]).0@ != (#[trigger] after.entries@[k]).0@ by {
        let jj = if j == i { n - 1 } else { j };
        let kk = if k == i { n - 1 } else { k };
        assert(after.entries@[j] == before.entries@[jj]);
        assert(after.entries@[k] == before.entries@[kk]);
        if jj < kk {
            assert(before.entries@[jj].0@ != before.entries@[kk].0@);
        } else {
            assert(before.entries@[kk].0@ != before.entries@[jj].0@);
        }
    }
    assert(after.wf());
    assert forall|k: Seq<char>| #[trigger] after@.contains_key(k) implies before@.contains_key(k)
        && k != key && after@[k] == before@[k] by {
        let j = choose|j: int|
            0 <= j < after.entries@.len() && #[trigger] after.entries@[j].0@ == k;
        after.entry_at(j);
        let jj = if j == i { n - 1 } else { j };
        assert(after.entries@[j] == before.entries@[jj]);
        before.entry_at(jj);
        if jj < i {
            assert(before.entries@[jj].0@ != before.entries@[i].0@);
        } else {
            assert(before.entries@[i].0@ != before.entries@[jj].0@);
        }
    }
    assert forall|k: Seq<char>| before@.contains_key(k) && k != key implies #[trigger] after@.contains_key(k) by {
        let j = choose|j: int|
            0 <= j < before.entries@.len() && #[trigger] before.entries@[j].0@ == k;
        let jj = if j == n - 1 { i } else { j };
        assert(after.entries@[jj].0@ == k);
    }
    assert(after@ =~= before@.remove(key));
}

} // verus!
