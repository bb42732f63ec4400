//! The result mapping: what a query has read so far, by quantity.
//!
//! Its keys are the quantities of the catalog, each at most once. It is
//! walked in the order of the quantities' names.

use vstd::prelude::*;
use crate::catalog::{positions_follow_names, precedes, Quantity, QUANTITIES};
use crate::decode::{Value, Variant};

verus! {

/// A mapping from quantity to decoded value.
pub struct ResultMap {
    slots: Vec<Option<Variant>>,
}

/// The entries of `map` whose key stands before position `end`, in the order
/// of the keys.
pub open spec fn entries_before(map: Map<Quantity, Value>, end: int) -> Seq<(Quantity, Value)>
    decreases end,
{
    if end <= 0 {
        Seq::empty()
    } else {
        let q = Quantity::at(end - 1);
        if map.contains_key(q) {
            entries_before(map, end - 1).push((q, map[q]))
        } else {
            entries_before(map, end - 1)
        }
    }
}

/// All entries of `map`, in the order of the keys.
pub open spec fn ordered_entries(map: Map<Quantity, Value>) -> Seq<(Quantity, Value)> {
    entries_before(map, QUANTITIES as int)
}

/// What a list of entries means.
pub open spec fn entry_values(entries: Seq<(Quantity, Variant)>) -> Seq<(Quantity, Value)> {
    Seq::new(entries.len(), |i: int| (entries[i].0, entries[i].1@))
}

impl View for ResultMap {
    type V = Map<Quantity, Value>;

    closed spec fn view(&self) -> Map<Quantity, Value> {
        Map::new(
            |q: Quantity| self.slots@[q.position()] is Some,
            |q: Quantity| self.slots@[q.position()].unwrap()@,
        )
    }
}

impl ResultMap {
    /// There is room for each quantity of the catalog.
    pub closed spec fn well_formed(&self) -> bool {
        self.slots@.len() == QUANTITIES
    }

    /// The empty mapping.
    pub fn new() -> (map: ResultMap)
        ensures
            map.well_formed(),
            map@ == Map::<Quantity, Value>::empty(),
    {
        let mut slots: Vec<Option<Variant>> = Vec::new();
        let mut i: usize = 0;
        while i < QUANTITIES
            invariant
                i <= QUANTITIES,
                slots@.len() == i,
                forall|j: int| 0 <= j < i ==> slots@[j] is None,
            decreases QUANTITIES - i,
        {
            slots.push(None);
            i += 1;
        }
        let map = ResultMap { slots };
        assert(map@ =~= Map::<Quantity, Value>::empty());
        map
    }

    pub fn contains_key(&self, q: Quantity) -> (present: bool)
        requires
            self.well_formed(),
        ensures
            present == self@.contains_key(q),
    {
        self.slots[q.index()].is_some()
    }

    pub fn get(&self, q: Quantity) -> (value: Option<&Variant>)
        requires
            self.well_formed(),
        ensures
            value is Some <==> self@.contains_key(q),
            value is Some ==> value.unwrap()@ == self@[q],
    {
        self.slots[q.index()].as_ref()
    }

    /// Stores `value` under `q`, in place of what stood there.
    pub fn insert(&mut self, q: Quantity, value: Variant)
        requires
            old(self).well_formed(),
        ensures
            final(self).well_formed(),
            final(self)@ == old(self)@.insert(q, value@),
    {
        let i = q.index();
        self.slots.set(i, Some(value));
        assert(self@ =~= old(self)@.insert(q, value@)) by {
            assert forall|p: Quantity| p.position() == q.position() implies p == q by {
                assert(Quantity::at(p.position()) == p);
                assert(Quantity::at(q.position()) == q);
            }
        }
    }

    /// Number of entries.
    pub fn len(&self) -> (n: usize)
        requires
            self.well_formed(),
        ensures
            n == ordered_entries(self@).len(),
    {
        let mut n: usize = 0;
        let mut i: usize = 0;
        while i < QUANTITIES
            invariant
                i <= QUANTITIES,
                self.well_formed(),
                n <= i,
                n == entries_before(self@, i as int).len(),
            decreases QUANTITIES - i,
        {
            if self.contains_key(Quantity::from_index(i)) {
                n += 1;
            }
            i += 1;
        }
        n
    }

    /// The entries, in the order of the quantities' names.
    pub fn entries(&self) -> (list: Vec<(Quantity, Variant)>)
        requires
            self.well_formed(),
        ensures
            entry_values(list@) == ordered_entries(self@),
    {
        let mut list: Vec<(Quantity, Variant)> = Vec::new();
        let mut i: usize = 0;
        while i < QUANTITIES
            invariant
                i <= QUANTITIES,
                self.well_formed(),
                entry_values(list@) =~= entries_before(self@, i as int),
            decreases QUANTITIES - i,
        {
            let q = Quantity::from_index(i);
            match &self.slots[i] {
                Some(value) => {
                    list.push((q, value.duplicate()));
                },
                None => {},
            }
            i += 1;
        }
        list
    }
}

/// Whether `entries` lists, with ascending positions, exactly the entries of
/// `map` whose key stands before position `end`.
pub open spec fn lists_entries(
    entries: Seq<(Quantity, Value)>,
    map: Map<Quantity, Value>,
    end: int,
) -> bool {
    &&& forall|k: int|
        0 <= k < entries.len() ==> {
            &&& map.contains_key((#[trigger] entries[k]).0)
            &&& entries[k].1 == map[entries[k].0]
            &&& entries[k].0.position() < end
        }
    &&& forall|i: int, j: int|
        0 <= i < j < entries.len() ==> (#[trigger] entries[i]).0.position() < (
        #[trigger] entries[j]).0.position()
    &&& forall|q: Quantity|
        map.contains_key(q) && q.position() < end ==> exists|k: int|
            0 <= k < entries.len() && (#[trigger] entries[k]).0 == q
}

proof fn entries_before_are_exact(map: Map<Quantity, Value>, end: int)
    requires
        0 <= end <= QUANTITIES,
    ensures
        lists_entries(entries_before(map, end), map, end),
    decreases end,
{
    if end > 0 {
        entries_before_are_exact(map, end - 1);
        let before = entries_before(map, end - 1);
        let now = entries_before(map, end);
        let last = Quantity::at(end - 1);
        assert forall|q: Quantity| map.contains_key(q) && q.position() < end implies exists|k: int|
            0 <= k < now.len() && (#[trigger] now[k]).0 == q by {
            assert(Quantity::at(q.position()) == q);
            if q.position() < end - 1 {
                let k = choose|k: int| 0 <= k < before.len() && (#[trigger] before[k]).0 == q;
                assert(now[k].0 == q);
            } else {
                assert(q == last);
                assert(now[now.len() - 1].0 == q);
            }
        }
    }
}

/// A walk over a mapping meets each of its entries once, with the value
/// stored under the key, and meets the keys in the order of their names.
pub proof fn walk_is_exact(map: Map<Quantity, Value>)
    ensures
        lists_entries(ordered_entries(map), map, QUANTITIES as int),
        forall|i: int, j: int|
            0 <= i < j < ordered_entries(map).len() ==> precedes(
                (#[trigger] ordered_entries(map)[i]).0.name_text(),
                (#[trigger] ordered_entries(map)[j]).0.name_text(),
            ),
{
    entries_before_are_exact(map, QUANTITIES as int);
    let entries = ordered_entries(map);
    assert forall|i: int, j: int| 0 <= i < j < entries.len() implies precedes(
        (#[trigger] entries[i]).0.name_text(),
        (#[trigger] entries[j]).0.name_text(),
    ) by {
        positions_follow_names(entries[i].0, entries[j].0);
    }
}

} // verus!
