//! The in-memory table every store keeps its rows in: rows are found by
//! their identifier, and an identifier that was handed out once is never
//! accepted again, not even after its row is gone.

use std::collections::HashMap;
use std::collections::HashSet;
use vstd::prelude::*;
use vstd::std_specs::hash::spec_keys_iter;
use vstd::std_specs::iter::IteratorSpec;

verus! {

/// Rows of type `T` keyed by a 128-bit identifier.
///
/// The view is the map from the identifiers in use to their rows.
/// [`Database::issued`] is the set of all identifiers the table has ever
/// accepted; it only grows.
pub struct Database<T> {
    rows: HashMap<u128, T>,
    issued: HashSet<u128>,
}

impl<T> View for Database<T> {
    type V = Map<u128, T>;

    closed spec fn view(&self) -> Map<u128, T> {
        self.rows@
    }
}

impl<T> Database<T> {
    /// Every identifier accepted so far, whether its row is still there or not.
    pub closed spec fn issued(&self) -> Set<u128> {
        self.issued@
    }

    #[verifier::type_invariant]
    spec fn inv(&self) -> bool {
        self.rows@.dom().subset_of(self.issued@)
    }

    /// An empty table that has issued nothing.
    pub fn new() -> (db: Self)
        ensures
            db@ == Map::<u128, T>::empty(),
            db.issued() == Set::<u128>::empty(),
    {
        Database { rows: HashMap::new(), issued: HashSet::new() }
    }

    /// Moves the table out, leaving an empty one behind.
    fn take(&mut self) -> (db: Self)
        ensures
            db == *old(self),
            db.inv(),
    {
        proof {
            use_type_invariant(&*self);
        }
        let mut db = Database { rows: HashMap::new(), issued: HashSet::new() };
        std::mem::swap(self, &mut db);
        db
    }

    /// Stores `row` under `id` if `id` was never issued before, and says
    /// whether it did. A refused insert changes nothing.
    pub fn insert(&mut self, id: u128, row: T) -> (inserted: bool)
        ensures
            inserted == !old(self).issued().contains(id),
            inserted ==> !old(self)@.contains_key(id),
            final(self)@ == (if inserted { old(self)@.insert(id, row) } else { old(self)@ }),
            final(self).issued() == (if inserted {
                old(self).issued().insert(id)
            } else {
                old(self).issued()
            }),
    {
        proof {
            use_type_invariant(&*self);
        }
        if self.issued.contains(&id) {
            false
        } else {
            let Database { mut rows, mut issued } = self.take();
            issued.insert(id);
            rows.insert(id, row);
            *self = Database { rows, issued };
            true
        }
    }

    /// The row stored under `id`, if there is one.
    pub fn get(&self, id: u128) -> (row: Option<&T>)
        ensures
            row == (if self@.contains_key(id) { Some(&self@[id]) } else { None }),
            row is Some ==> self.issued().contains(id),
    {
        proof {
            use_type_invariant(self);
        }
        self.rows.get(&id)
    }

    /// Whether a row is stored under `id`.
    pub fn contains(&self, id: u128) -> (found: bool)
        ensures
            found == self@.contains_key(id),
    {
        self.rows.contains_key(&id)
    }

    /// Takes the row stored under `id` out of the table. The identifier
    /// stays issued.
    pub fn remove(&mut self, id: u128) -> (row: Option<T>)
        ensures
            row == (if old(self)@.contains_key(id) { Some(old(self)@[id]) } else { None }),
            row is Some ==> old(self).issued().contains(id),
            final(self)@ == old(self)@.remove(id),
            final(self).issued() == old(self).issued(),
    {
        let Database { mut rows, issued } = self.take();
        let row = rows.remove(&id);
        *self = Database { rows, issued };
        row
    }

    /// The number of rows.
    pub fn len(&self) -> (n: usize)
        ensures
            n == self@.len(),
            self@.dom().finite(),
    {
        self.rows.len()
    }

    /// The identifiers in use, each once, in no particular order.
    pub fn ids(&self) -> (ids: Vec<u128>)
        ensures
            ids@.no_duplicates(),
            ids@.to_set() == self@.dom(),
            ids@.len() == self@.len(),
    {
        let mut ids: Vec<u128> = Vec::new();
        let ghost keys = spec_keys_iter(&self.rows).remaining();
        for key in it: self.rows.keys()
            invariant
                it.seq() == keys,
                ids@.len() == it.index(),
                forall|j: int| 0 <= j < ids@.len() ==> ids@[j] == *keys[j],
        {
            ids.push(*key);
        }
        proof {
            assert(ids@ =~= keys.unref());
        }
        ids
    }
}

} // verus!
