//! Motion: the exchange of two particles and the six moves that lead to one.

use vstd::prelude::*;
use crate::budget::MovementBudget;
use crate::material::Material;
use crate::rules::after_swap_attempt;
use crate::rules::cell_index;
use crate::rules::column;
use crate::rules::drag_move;
use crate::rules::lemma_position;
use crate::rules::lemma_sides;
use crate::rules::made;
use crate::rules::neighbour;
use crate::rules::offset;
use crate::rules::probe;
use crate::rules::push_move;
use crate::rules::rise_move;
use crate::rules::row;
use crate::rules::settle;
use crate::rules::sink_move;
use crate::rules::spill_move;
use crate::rules::swap_allowed;
use crate::rules::takes;
use crate::rules::yield_move;
use crate::rules::Move;
use crate::simulation::Simulation;
use crate::world::World;

verus! {

impl Simulation {
    /// Tries to exchange the particle at `from_idx` with the one in column
    /// `to_x` and row `to_y`, at the cost of `distance` to both cells.
    ///
    /// Nothing changes unless the grid has the target cell, neither particle
    /// is `Rock`, and the budget admits the move for both.
    pub fn try_swap(
        &mut self,
        from_idx: usize,
        to_x: isize,
        to_y: isize,
        moved: &mut MovementBudget,
        distance: usize,
    ) -> (swapped: bool)
        requires
            old(self).wf(),
            from_idx < old(self)@.cells.len(),
        ensures
            final(self).wf(),
            final(self)@ == (World { cells: final(self)@.cells, ..old(self)@ }),
            match cell_index(old(self)@.width, old(self)@.height, to_x as int, to_y as int) {
                Some(to_idx) => {
                    &&& swapped == swap_allowed(
                        old(self).pass(old(moved)@),
                        from_idx,
                        to_idx,
                        distance,
                    )
                    &&& final(self).pass(final(moved)@) == after_swap_attempt(
                        old(self).pass(old(moved)@),
                        from_idx,
                        to_idx,
                        distance,
                    )
                },
                None => !swapped && final(self).pass(final(moved)@) == old(self).pass(
                    old(moved)@,
                ),
            },
    {
        if self.grid[from_idx].material == Material::Rock {
            return false;
        }
        let to_idx = match self.index_at(to_x, to_y) {
            Some(i) => i,
            None => {
                return false;
            },
        };
        if self.grid[to_idx].material == Material::Rock {
            return false;
        }
        if moved.can_move(from_idx, distance, self.grid[from_idx].viscosity) && moved.can_move(
            to_idx,
            distance,
            self.grid[to_idx].viscosity,
        ) {
            let from_particle = self.grid[from_idx];
            self.grid[from_idx] = self.grid[to_idx];
            self.grid[to_idx] = from_particle;
            moved.record_move(from_idx, distance);
            if to_idx != from_idx {
                moved.record_move(to_idx, distance);
            }
            true
        } else {
            false
        }
    }

    /// Looks along the row of the cell at `idx`, on the chosen side and up to
    /// `reach` cells far, for the nearest cell of another material.
    pub fn probe(&self, idx: usize, toward_left: bool, reach: usize) -> (found: Option<Move>)
        requires
            self.wf(),
            idx < self@.cells.len(),
        ensures
            found == probe(self@.width, self@.height, self@.cells, idx, toward_left, 1, reach),
            found is Some ==> {
                &&& found->0.target < self@.cells.len()
                &&& 1 <= found->0.distance <= reach
                &&& neighbour(
                    self@.width,
                    self@.height,
                    idx,
                    offset(toward_left, found->0.distance as int),
                    0,
                ) == Some(found->0.target)
            },
    {
        proof {
            lemma_position(self.width, self.height, idx);
            lemma_sides(self.width, self.height);
        }
        let material = self.grid[idx].material;
        let x = (idx % self.width) as isize;
        let y = (idx / self.width) as isize;
        let mut distance: usize = 1;
        let mut nx: isize = if toward_left {
            x - 1
        } else {
            x + 1
        };
        while distance <= reach
            invariant
                self.wf(),
                idx < self@.cells.len(),
                material == self@.cells[idx as int].material,
                x == column(self@.width, idx),
                y == row(self@.width, idx),
                1 <= distance,
                nx == x + offset(toward_left, distance as int),
                -1 <= nx <= self@.width,
                self@.width <= isize::MAX,
                probe(self@.width, self@.height, self@.cells, idx, toward_left, 1, reach) == probe(
                    self@.width,
                    self@.height,
                    self@.cells,
                    idx,
                    toward_left,
                    distance,
                    reach,
                ),
            decreases reach - distance,
        {
            let target = match self.index_at(nx, y) {
                Some(j) => j,
                None => {
                    return None;
                },
            };
            if self.grid[target].material != material {
                return Some(Move { target, distance });
            }
            if distance == reach {
                return None;
            }
            distance = distance + 1;
            nx = if toward_left {
                nx - 1
            } else {
                nx + 1
            };
        }
        None
    }

    /// The move that sinking calls for at the cell at `idx`, if any.
    pub fn sink_move(&self, idx: usize) -> (proposed: Option<Move>)
        requires
            self.wf(),
            idx < self@.cells.len(),
        ensures
            proposed == sink_move(self@.width, self@.height, self@.cells, idx),
            proposed is Some ==> proposed->0.target < self@.cells.len(),
    {
        proof {
            lemma_position(self.width, self.height, idx);
            lemma_sides(self.width, self.height);
        }
        let x = (idx % self.width) as isize;
        let y = (idx / self.width) as isize;
        if let Some(below) = self.index_at(x, y + 1) {
            if self.grid[below].density > self.grid[idx].density {
                return Some(Move { target: below, distance: 1 });
            }
        }
        None
    }

    /// The move that rising calls for at the cell at `idx`, if any.
    pub fn rise_move(&self, idx: usize) -> (proposed: Option<Move>)
        requires
            self.wf(),
            idx < self@.cells.len(),
        ensures
            proposed == rise_move(self@.width, self@.height, self@.cells, idx),
            proposed is Some ==> proposed->0.target < self@.cells.len(),
    {
        proof {
            lemma_position(self.width, self.height, idx);
            lemma_sides(self.width, self.height);
        }
        let x = (idx % self.width) as isize;
        let y = (idx / self.width) as isize;
        if let Some(above) = self.index_at(x, y - 1) {
            if self.grid[above].density > self.grid[idx].density {
                return Some(Move { target: above, distance: 1 });
            }
        }
        None
    }

    /// The move that viscous drag calls for at the cell at `idx`, if any.
    pub fn drag_move(&self, idx: usize, toward_left: bool) -> (proposed: Option<Move>)
        requires
            self.wf(),
            idx < self@.cells.len(),
        ensures
            proposed == drag_move(self@.width, self@.height, self@.cells, idx, toward_left),
            proposed is Some ==> proposed->0.target < self@.cells.len(),
    {
        let this_viscosity = self.grid[idx].viscosity;
        if this_viscosity > 2 {
            if let Some(found) = self.probe(idx, toward_left, this_viscosity) {
                if self.grid[found.target].viscosity > 4 {
                    return Some(found);
                }
            }
        }
        None
    }

    /// The move that viscous exchange calls for at the cell at `idx`, if any.
    pub fn push_move(&self, idx: usize, toward_left: bool) -> (proposed: Option<Move>)
        requires
            self.wf(),
            idx < self@.cells.len(),
        ensures
            proposed == push_move(self@.width, self@.height, self@.cells, idx, toward_left),
            proposed is Some ==> proposed->0.target < self@.cells.len(),
    {
        proof {
            lemma_position(self.width, self.height, idx);
            lemma_sides(self.width, self.height);
        }
        let x = (idx % self.width) as isize;
        let y = (idx / self.width) as isize;
        let delta_x: isize = if toward_left {
            -1
        } else {
            1
        };
        if self.grid[idx].viscosity > 1 {
            if let Some(side) = self.index_at(x + delta_x, y) {
                if self.grid[side].viscosity > 1 && self.grid[idx].material
                    != self.grid[side].material {
                    return Some(Move { target: side, distance: 1 });
                }
            }
        }
        None
    }

    /// The move that spilling calls for at the cell at `idx`, if any.
    pub fn spill_move(&self, idx: usize, toward_left: bool) -> (proposed: Option<Move>)
        requires
            self.wf(),
            idx < self@.cells.len(),
        ensures
            proposed == spill_move(self@.width, self@.height, self@.cells, idx, toward_left),
            proposed is Some ==> proposed->0.target < self@.cells.len(),
    {
        proof {
            lemma_position(self.width, self.height, idx);
            lemma_sides(self.width, self.height);
        }
        let x = (idx % self.width) as isize;
        let y = (idx / self.width) as isize;
        let delta_x: isize = if toward_left {
            -1
        } else {
            1
        };
        let density = self.grid[idx].density;
        if let Some(side) = self.index_at(x + delta_x, y) {
            if let Some(density_below_beside) = self.density_at(x + delta_x, y + 1) {
                if density > self.grid[side].density && density > density_below_beside {
                    return Some(Move { target: side, distance: 1 });
                }
            }
        }
        None
    }

    /// The move that giving way calls for at the cell at `idx`, if any.
    pub fn yield_move(&self, idx: usize, toward_left: bool) -> (proposed: Option<Move>)
        requires
            self.wf(),
            idx < self@.cells.len(),
        ensures
            proposed == yield_move(self@.width, self@.height, self@.cells, idx, toward_left),
            proposed is Some ==> proposed->0.target < self@.cells.len(),
    {
        proof {
            lemma_position(self.width, self.height, idx);
            lemma_sides(self.width, self.height);
        }
        let x = (idx % self.width) as isize;
        let y = (idx / self.width) as isize;
        let delta_x: isize = if toward_left {
            -1
        } else {
            1
        };
        let density = self.grid[idx].density;
        if let Some(density_above) = self.density_at(x, y - 1) {
            if let Some(side) = self.index_at(x + delta_x, y) {
                if density_above > self.grid[side].density && density > self.grid[side].density {
                    return Some(Move { target: side, distance: 1 });
                }
            }
        }
        None
    }

    /// Makes the proposed move if the budget admits it.
    pub fn attempt(&mut self, idx: usize, proposed: Option<Move>, moved: &mut MovementBudget) -> (taken:
        bool)
        requires
            old(self).wf(),
            idx < old(self)@.cells.len(),
            proposed is Some ==> proposed->0.target < old(self)@.cells.len(),
        ensures
            final(self).wf(),
            final(self)@ == (World { cells: final(self)@.cells, ..old(self)@ }),
            taken == takes(old(self).pass(old(moved)@), idx, proposed),
            final(self).pass(final(moved)@) == if taken {
                made(old(self).pass(old(moved)@), idx, proposed)
            } else {
                old(self).pass(old(moved)@)
            },
    {
        match proposed {
            Some(m) => {
                proof {
                    lemma_position(self.width, self.height, m.target);
                    lemma_sides(self.width, self.height);
                }
                let to_x = (m.target % self.width) as isize;
                let to_y = (m.target / self.width) as isize;
                self.try_swap(idx, to_x, to_y, moved, m.distance)
            },
            None => false,
        }
    }

    /// Visits the cell at `idx` as one that neither burns nor catches fire:
    /// the first of the six moves that can be taken is made.
    pub fn settle(&mut self, idx: usize, toward_left: bool, moved: &mut MovementBudget)
        requires
            old(self).wf(),
            idx < old(self)@.cells.len(),
        ensures
            final(self).wf(),
            final(self)@ == (World { cells: final(self)@.cells, ..old(self)@ }),
            final(self).pass(final(moved)@) == settle(
                old(self)@.width,
                old(self)@.height,
                old(self).pass(old(moved)@),
                idx,
                toward_left,
            ),
    {
        let sink = self.sink_move(idx);
        if self.attempt(idx, sink, moved) {
            return;
        }
        let rise = self.rise_move(idx);
        if self.attempt(idx, rise, moved) {
            return;
        }
        let drag = self.drag_move(idx, toward_left);
        if self.attempt(idx, drag, moved) {
            return;
        }
        let push = self.push_move(idx, toward_left);
        if self.attempt(idx, push, moved) {
            return;
        }
        let spill = self.spill_move(idx, toward_left);
        if self.attempt(idx, spill, moved) {
            return;
        }
        let give = self.yield_move(idx, toward_left);
        self.attempt(idx, give, moved);
    }
}

} // verus!
