//! The tick: one visit to every cell, then one turn of every emitter.

use vstd::prelude::*;
use crate::budget::MovementBudget;
use crate::material::Material;
use crate::random::flips;
use crate::random::thread_rng;
use crate::rules::lemma_position;
use crate::rules::traverse;
use crate::rules::visit;
use crate::simulation::Simulation;
use crate::world::advanced;
use crate::world::emitted;
use crate::world::World;

verus! {

impl Simulation {
    /// Visits the cell that stands at `order_idx` in the traversal order.
    ///
    /// A burning cell burns on; a cell with energy beside a burning one
    /// catches fire; any other cell makes the first move that it can.
    /// `choice` is the coin flip of this visit: it picks the left side on
    /// `true`, the right side on `false`.
    pub fn update_tile(&mut self, order_idx: usize, choice: bool, moved: &mut MovementBudget)
        requires
            old(self).wf(),
            order_idx < old(self)@.order.len(),
        ensures
            final(self).wf(),
            final(self)@ == (World { cells: final(self)@.cells, ..old(self)@ }),
            final(self).pass(final(moved)@) == visit(
                old(self)@.width,
                old(self)@.height,
                old(self).pass(old(moved)@),
                old(self)@.order[order_idx as int],
                choice,
            ),
    {
        let idx = self.order[order_idx];
        proof {
            lemma_position(self.width, self.height, idx);
        }

        // Column 0 and row 0 are at the top left.
        let x = (idx % self.width) as isize;
        let y = (idx / self.width) as isize;

        if self.grid[idx].material == Material::Fire {
            self.burn(idx);
        } else if self.grid[idx].energy > 0 && self.neighbour_on_fire(x, y) {
            self.set_on_fire(x, y);
        } else {
            self.settle(idx, choice, moved);
        }
    }

    /// Gives every emitter its turn: one that is due puts its material into
    /// its cell, whatever is there, and starts its countdown again; the
    /// others count down by one.
    pub fn emit(&mut self)
        requires
            old(self).wf(),
        ensures
            final(self).wf(),
            final(self)@ == (World {
                cells: emitted(old(self)@.cells, old(self)@.sources),
                sources: advanced(old(self)@.sources),
                ..old(self)@
            }),
    {
        broadcast use vstd::std_specs::hash::group_hash_axioms;

        let ghost start = self@;
        let count = self.grid.len();
        let mut idx: usize = 0;
        while idx < count
            invariant
                self.wf(),
                idx <= count,
                count == start.cells.len(),
                self@ == (World { cells: self@.cells, sources: self@.sources, ..start }),
                self@.cells.len() == count,
                forall|i: int|
                    0 <= i < count ==> #[trigger] self@.cells[i] == if i < idx {
                        emitted(start.cells, start.sources)[i]
                    } else {
                        start.cells[i]
                    },
                self@.sources.dom() == start.sources.dom(),
                forall|k: usize| #[trigger]
                    start.sources.contains_key(k) ==> self@.sources[k] == if k < idx {
                        start.sources[k].spec_advanced()
                    } else {
                        start.sources[k]
                    },
            decreases count - idx,
        {
            let found = match self.sources.get(&idx) {
                Some(source) => Some(*source),
                None => None,
            };
            if let Some(source) = found {
                let mut source = source;
                if source.advance() {
                    self.grid[idx].set_material(source.material);
                }
                self.sources.insert(idx, source);
                assert(self@.sources.dom() =~= start.sources.dom());
            }
            idx = idx + 1;
        }
        assert(self@.cells =~= emitted(start.cells, start.sources));
        assert(self@.sources =~= advanced(start.sources));
    }

    /// Advances the simulation by one tick with the given coin flips, one
    /// for each cell in the order of the traversal.
    ///
    /// Every cell is visited once, later visits seeing what earlier ones
    /// did; then every emitter has its turn. With another number of flips
    /// than the grid has cells nothing is done, and the result is `false`.
    pub fn tick_with(&mut self, choices: &Vec<bool>) -> (done: bool)
        requires
            old(self).wf(),
        ensures
            final(self).wf(),
            done == (choices@.len() == old(self)@.order.len()),
            final(self)@ == if done {
                old(self)@.ticked(choices@)
            } else {
                old(self)@
            },
    {
        if choices.len() != self.order.len() {
            return false;
        }
        let ghost start = self@;
        let mut moved = MovementBudget::new();
        let count = self.order.len();
        let mut order_idx: usize = 0;
        while order_idx < count
            invariant
                self.wf(),
                order_idx <= count,
                count == start.order.len(),
                count == choices@.len(),
                self@ == (World { cells: self@.cells, ..start }),
                self.pass(moved@) == traverse(
                    start.width,
                    start.height,
                    start.start(),
                    start.order,
                    choices@,
                    order_idx as nat,
                ),
            decreases count - order_idx,
        {
            self.update_tile(order_idx, choices[order_idx], &mut moved);
            order_idx = order_idx + 1;
        }
        self.emit();
        true
    }

    /// Advances the simulation by one tick, flipping a fair coin for every
    /// cell.
    pub fn tick(&mut self)
        requires
            old(self).wf(),
        ensures
            final(self).wf(),
            exists|choices: Seq<bool>|
                choices.len() == old(self)@.order.len() && final(self)@ == old(self)@.ticked(
                    choices,
                ),
    {
        let mut rng = thread_rng();
        let choices = flips(&mut rng, self.order.len());
        self.tick_with(&choices);
    }

    /// Advances the simulation by one tick unless it is paused.
    pub fn update(&mut self)
        requires
            old(self).wf(),
        ensures
            final(self).wf(),
            old(self)@.paused ==> final(self)@ == old(self)@,
            !old(self)@.paused ==> exists|choices: Seq<bool>|
                choices.len() == old(self)@.order.len() && final(self)@ == old(self)@.ticked(
                    choices,
                ),
    {
        if self.paused {
            return;
        }
        self.tick();
    }
}

} // verus!
