//! The trail of a particle: a bounded history of its most recent positions.

use vstd::prelude::*;
use crate::scalar::Vec3;

verus! {

/// A ring buffer of positions with a fixed number of slots and a write
/// cursor that rotates through them.
///
/// Its view is the history it holds, oldest position first. The history
/// always has as many entries as the trail has slots.
#[derive(Debug)]
pub struct Trail {
    slots: Vec<Vec3>,
    cursor: usize,
}

impl View for Trail {
    type V = Seq<Vec3>;

    /// The positions held, from the oldest to the newest.
    closed spec fn view(&self) -> Seq<Vec3> {
        self.slots@.subrange(self.cursor as int, self.slots@.len() as int)
            + self.slots@.subrange(0, self.cursor as int)
    }
}

impl Trail {
    #[verifier::type_invariant]
    spec fn well_formed(&self) -> bool {
        self.cursor < self.slots@.len() || (self.cursor == 0 && self.slots@.len() == 0)
    }

    /// What a history becomes when a position is recorded: the position
    /// comes last and the oldest entry leaves.
    pub open spec fn recorded(history: Seq<Vec3>, position: Vec3) -> Seq<Vec3> {
        history.push(position).skip(1)
    }

    /// A trail with `capacity` slots, each holding `position`.
    pub fn new(capacity: usize, position: Vec3) -> (trail: Trail)
        ensures
            trail@ == Seq::new(capacity as nat, |i: int| position),
    {
        let mut slots: Vec<Vec3> = Vec::new();
        let mut filled: usize = 0;
        while filled < capacity
            invariant
                filled <= capacity,
                slots@ == Seq::new(filled as nat, |i: int| position),
            decreases capacity - filled,
        {
            slots.push(position);
            filled = filled + 1;
        }
        Trail { slots, cursor: 0 }
    }

    /// The number of positions that the trail holds.
    pub fn capacity(&self) -> (capacity: usize)
        ensures
            capacity == self@.len(),
    {
        proof {
            use_type_invariant(self);
        }
        self.slots.len()
    }

    /// Records `position` as the newest entry, in place of the oldest.
    pub fn record(&mut self, position: Vec3)
        ensures
            final(self)@ == Self::recorded(old(self)@, position),
    {
        proof {
            use_type_invariant(&*self);
        }
        let capacity = self.slots.len();
        if capacity > 0 {
            let cursor = self.cursor;
            let next: usize = if cursor + 1 == capacity { 0 } else { cursor + 1 };
            let mut slots: Vec<Vec3> = Vec::new();
            self.cursor = 0;
            std::mem::swap(&mut slots, &mut self.slots);
            slots.set(cursor, position);
            self.slots = slots;
            self.cursor = next;
            assert(self@ == Self::recorded(old(self)@, position));
        }
    }

    /// The position recorded `age` records ago: 0 is the newest. `None`
    /// where the trail holds no entry that old.
    pub fn get(&self, age: usize) -> (position: Option<Vec3>)
        ensures
            position == (if age < self@.len() {
                Some(self@[self@.len() - 1 - age])
            } else {
                None
            }),
    {
        proof {
            use_type_invariant(self);
        }
        let capacity = self.slots.len();
        if age < capacity {
            let back = age + 1;
            let index: usize = if back <= self.cursor {
                self.cursor - back
            } else {
                capacity - (back - self.cursor)
            };
            Some(self.slots[index])
        } else {
            None
        }
    }

    /// The positions held, from the oldest to the newest.
    pub fn positions(&self) -> (positions: Vec<Vec3>)
        ensures
            positions@ == self@,
    {
        proof {
            use_type_invariant(self);
        }
        let capacity = self.slots.len();
        let mut positions: Vec<Vec3> = Vec::new();
        let mut i: usize = self.cursor;
        while i < capacity
            invariant
                self.cursor <= i <= capacity,
                capacity == self.slots@.len(),
                positions@ == self.slots@.subrange(self.cursor as int, i as int),
            decreases capacity - i,
        {
            positions.push(self.slots[i]);
            i = i + 1;
        }
        let mut j: usize = 0;
        while j < self.cursor
            invariant
                j <= self.cursor <= capacity,
                capacity == self.slots@.len(),
                positions@ == self.slots@.subrange(self.cursor as int, capacity as int)
                    + self.slots@.subrange(0, j as int),
            decreases self.cursor - j,
        {
            positions.push(self.slots[j]);
            j = j + 1;
        }
        positions
    }
}

} // verus!
