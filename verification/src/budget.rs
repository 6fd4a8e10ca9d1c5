//! The movement budget: how far each cell has been displaced in this tick.

use vstd::prelude::*;
use std::collections::HashMap;

verus! {

/// The distance recorded against `idx`; nothing recorded counts as zero.
pub open spec fn spent(moved: Map<usize, usize>, idx: usize) -> usize {
    if moved.contains_key(idx) {
        moved[idx]
    } else {
        0
    }
}

/// A further move of `distance` keeps the cell at `idx` below `viscosity`.
pub open spec fn admits(moved: Map<usize, usize>, idx: usize, distance: usize, viscosity: usize) -> bool {
    spent(moved, idx) + distance < viscosity
}

/// The budget after `distance` was added to what `idx` has spent.
pub open spec fn recorded(moved: Map<usize, usize>, idx: usize, distance: usize) -> Map<usize, usize> {
    moved.insert(idx, (spent(moved, idx) + distance) as usize)
}

/// A per-tick record of the distance moved, by grid index.
pub struct MovementBudget {
    moved: HashMap<usize, usize>,
}

impl View for MovementBudget {
    type V = Map<usize, usize>;

    closed spec fn view(&self) -> Map<usize, usize> {
        self.moved@
    }
}

impl MovementBudget {
    /// The budget at the start of a tick: nothing has moved.
    pub fn new() -> (budget: MovementBudget)
        ensures
            budget@ == Map::<usize, usize>::empty(),
    {
        MovementBudget { moved: HashMap::new() }
    }

    /// The distance recorded so far against `idx`.
    pub fn spent(&self, idx: usize) -> (distance: usize)
        ensures
            distance == spent(self@, idx),
    {
        broadcast use vstd::std_specs::hash::group_hash_axioms;

        match self.moved.get(&idx) {
            Some(c) => *c,
            None => 0,
        }
    }

    /// Whether the cell at `idx`, whose particle has the given viscosity, may
    /// be displaced by `distance` more.
    pub fn can_move(&self, idx: usize, distance: usize, viscosity: usize) -> (allowed: bool)
        ensures
            allowed == admits(self@, idx, distance, viscosity),
    {
        let so_far = self.spent(idx);
        distance < viscosity && so_far < viscosity - distance
    }

    /// Adds `distance` to what `idx` has spent.
    pub fn record_move(&mut self, idx: usize, distance: usize)
        requires
            spent(old(self)@, idx) + distance <= usize::MAX,
        ensures
            final(self)@ == recorded(old(self)@, idx, distance),
    {
        broadcast use vstd::std_specs::hash::group_hash_axioms;

        let so_far = self.spent(idx);
        self.moved.insert(idx, so_far + distance);
    }
}

} // verus!
