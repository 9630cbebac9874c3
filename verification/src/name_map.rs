//! A map from names to values, in the order in which the names were added.

use vstd::prelude::*;

use crate::text::{own, same};

verus! {

/// A map keyed by text. No name occurs twice.
#[derive(Debug)]
pub struct NameMap<V> {
    entries: Vec<(String, V)>,
}

/// The entries of a list, as a map; of equal names the last counts.
pub open spec fn entries_map<V>(entries: Seq<(String, V)>) -> Map<Seq<char>, V>
    decreases entries.len(),
{
    if entries.len() == 0 {
        Map::empty()
    } else {
        entries_map(entries.drop_last()).insert(entries.last().0@, entries.last().1)
    }
}

spec fn has_name<V>(entries: Seq<(String, V)>, k: Seq<char>) -> bool {
    exists|i: int| 0 <= i < entries.len() && (#[trigger] entries[i]).0@ == k
}

spec fn distinct<V>(entries: Seq<(String, V)>) -> bool {
    forall|a: int, b: int|
        0 <= a < b < entries.len() ==> (#[trigger] entries[a]).0@ != (#[trigger] entries[b]).0@
}

proof fn entries_map_names<V>(entries: Seq<(String, V)>, k: Seq<char>)
    ensures
        entries_map(entries).contains_key(k) <==> has_name(entries, k),
    decreases entries.len(),
{
    if entries.len() > 0 {
        let front = entries.drop_last();
        entries_map_names(front, k);
        if has_name(front, k) {
            let i = choose|i: int| 0 <= i < front.len() && (#[trigger] front[i]).0@ == k;
            assert(entries[i].0@ == k);
        }
        if has_name(entries, k) {
            let i = choose|i: int| 0 <= i < entries.len() && (#[trigger] entries[i]).0@ == k;
            if i < front.len() {
                assert(front[i].0@ == k);
            }
        }
        if k == entries.last().0@ {
            assert(entries[entries.len() - 1].0@ == k);
        }
    }
}

proof fn entries_map_at<V>(entries: Seq<(String, V)>, i: int)
    requires
        0 <= i < entries.len(),
        distinct(entries),
    ensures
        entries_map(entries).contains_key(entries[i].0@),
        entries_map(entries)[entries[i].0@] == entries[i].1,
    decreases entries.len(),
{
    if i < entries.len() - 1 {
        assert(entries.drop_last()[i] == entries[i]);
        entries_map_at(entries.drop_last(), i);
        assert(entries[i].0@ != entries[entries.len() - 1].0@);
    }
}

proof fn entries_map_update<V>(entries: Seq<(String, V)>, i: int, e: (String, V))
    requires
        0 <= i < entries.len(),
        distinct(entries),
        e.0@ == entries[i].0@,
    ensures
        entries_map(entries.update(i, e)) == entries_map(entries).insert(e.0@, e.1),
        distinct(entries.update(i, e)),
    decreases entries.len(),
{
    let n = entries.len() - 1;
    let after = entries.update(i, e);
    assert forall|a: int, b: int| 0 <= a < b < after.len() implies (#[trigger] after[a]).0@ != (
    #[trigger] after[b]).0@ by {
        assert(entries[a].0@ != entries[b].0@);
    }
    if i < n {
        entries_map_update(entries.drop_last(), i, e);
        assert(after.drop_last() =~= entries.drop_last().update(i, e));
        assert(entries[i].0@ != entries[n].0@);
        assert(entries_map(after) =~= entries_map(entries).insert(e.0@, e.1));
    } else {
        assert(after.drop_last() =~= entries.drop_last());
        assert(entries_map(after) =~= entries_map(entries).insert(e.0@, e.1));
    }
}

impl<V> View for NameMap<V> {
    type V = Map<Seq<char>, V>;

    closed spec fn view(&self) -> Map<Seq<char>, V> {
        entries_map(self.entries@)
    }
}

impl<V> NameMap<V> {
    #[verifier::type_invariant]
    spec fn inv(self) -> bool {
        distinct(self.entries@)
    }

    /// The names, in the order in which they were added.
    pub closed spec fn order(&self) -> Seq<Seq<char>> {
        Seq::new(self.entries@.len(), |i: int| self.entries@[i].0@)
    }

    /// An empty map.
    pub fn new() -> (r: Self)
        ensures
            r@ == Map::<Seq<char>, V>::empty(),
            r.order() == Seq::<Seq<char>>::empty(),
    {
        let r = NameMap { entries: Vec::new() };
        assert(r.order() =~= Seq::<Seq<char>>::empty());
        r
    }

    /// The number of names. The order lists exactly the names of the map, each
    /// once.
    pub fn len(&self) -> (r: usize)
        ensures
            r == self.order().len(),
            self.order().no_duplicates(),
            forall|k: Seq<char>| #[trigger] self@.contains_key(k) <==> self.order().contains(k),
    {
        proof {
            use_type_invariant(self);
            assert forall|k: Seq<char>| #[trigger] self@.contains_key(k) <==> self.order().contains(
                k,
            ) by {
                entries_map_names(self.entries@, k);
                if has_name(self.entries@, k) {
                    let i = choose|i: int|
                        0 <= i < self.entries@.len() && (#[trigger] self.entries@[i]).0@ == k;
                    assert(self.order()[i] == k);
                }
                if self.order().contains(k) {
                    let i = choose|i: int| 0 <= i < self.order().len() && self.order()[i] == k;
                    assert(self.entries@[i].0@ == k);
                }
            }
            assert forall|i: int, j: int|
                0 <= i < self.order().len() && 0 <= j < self.order().len() && i
                    != j implies self.order()[i] != self.order()[j] by {
                if i < j {
                    assert(self.entries@[i].0@ != self.entries@[j].0@);
                } else {
                    assert(self.entries@[j].0@ != self.entries@[i].0@);
                }
            }
        }
        self.entries.len()
    }

    /// The name at a position.
    pub fn name_at(&self, i: usize) -> (r: &String)
        requires
            i < self.order().len(),
        ensures
            r@ == self.order()[i as int],
            self@.contains_key(r@),
    {
        proof {
            use_type_invariant(self);
            entries_map_at(self.entries@, i as int);
        }
        &self.entries[i].0
    }

    /// The value at a position.
    pub fn value_at(&self, i: usize) -> (r: &V)
        requires
            i < self.order().len(),
        ensures
            *r == self@[self.order()[i as int]],
    {
        proof {
            use_type_invariant(self);
            entries_map_at(self.entries@, i as int);
        }
        &self.entries[i].1
    }

    fn position(&self, name: &str) -> (r: Option<usize>)
        ensures
            match r {
                Some(i) => i < self.entries@.len() && self.entries@[i as int].0@ == name@,
                None => !has_name(self.entries@, name@),
            },
    {
        let mut i: usize = 0;
        while i < self.entries.len()
            invariant
                i <= self.entries@.len(),
                forall|k: int| 0 <= k < i ==> (#[trigger] self.entries@[k]).0@ != name@,
            decreases self.entries@.len() - i,
        {
            if same(&self.entries[i].0, name) {
                return Some(i);
            }
            i = i + 1;
        }
        None
    }

    /// The value of a name.
    pub fn get(&self, name: &str) -> (r: Option<&V>)
        ensures
            r is Some == self@.contains_key(name@),
            r matches Some(v) ==> *v == self@[name@],
    {
        proof {
            use_type_invariant(self);
            entries_map_names(self.entries@, name@);
        }
        match self.position(name) {
            Some(i) => {
                proof {
                    entries_map_at(self.entries@, i as int);
                }
                Some(&self.entries[i].1)
            },
            None => None,
        }
    }

    /// Whether a name has a value.
    pub fn contains(&self, name: &str) -> (r: bool)
        ensures
            r == self@.contains_key(name@),
    {
        self.get(name).is_some()
    }

    /// Give a name a value; an earlier value of the name is replaced. A new name
    /// comes last in the order.
    pub fn insert(&mut self, name: &str, value: V)
        ensures
            final(self)@ == old(self)@.insert(name@, value),
            final(self).order() == (if old(self)@.contains_key(name@) {
                old(self).order()
            } else {
                old(self).order().push(name@)
            }),
    {
        proof {
            use_type_invariant(&*self);
            entries_map_names(self.entries@, name@);
        }
        let ghost before = self.entries@;
        let at = self.position(name);
        let mut entries: Vec<(String, V)> = Vec::new();
        std::mem::swap(&mut entries, &mut self.entries);
        match at {
            Some(i) => {
                let e = (own(name), value);
                proof {
                    entries_map_update(entries@, i as int, e);
                }
                entries.set(i, e);
                *self = NameMap { entries };
                assert(self.order() =~= Seq::new(before.len(), |i: int| before[i].0@));
            },
            None => {
                let e = (own(name), value);
                proof {
                    let after = before.push(e);
                    assert(after.drop_last() =~= before);
                    assert forall|a: int, b: int| 0 <= a < b < after.len() implies (
                    #[trigger] after[a]).0@ != (#[trigger] after[b]).0@ by {
                        if b < before.len() {
                            assert(before[a].0@ != before[b].0@);
                        } else {
                            assert(before[a].0@ != name@);
                        }
                    }
                }
                entries.push(e);
                *self = NameMap { entries };
                assert(self.order() =~= Seq::new(before.len(), |i: int| before[i].0@).push(name@));
            },
        }
    }
}

} // verus!
