//! Fire: what burns, what catches it, and what is left.

use vstd::prelude::*;
use crate::material::Material;
use crate::rules::burn;
use crate::rules::cell_index;
use crate::rules::fire_around;
use crate::rules::kindle;
use crate::rules::lemma_cell_index;
use crate::rules::lemma_neighbour;
use crate::rules::lemma_position;
use crate::rules::lemma_sides;
use crate::simulation::Simulation;
use crate::world::World;

verus! {

impl Simulation {
    /// Sets the cell in column `x` and row `y` alight: its material becomes
    /// `Fire`, and it keeps the energy, density and viscosity of its fuel.
    pub fn set_on_fire(&mut self, x: isize, y: isize)
        requires
            old(self).wf(),
            cell_index(old(self)@.width, old(self)@.height, x as int, y as int) is Some,
        ensures
            final(self).wf(),
            final(self)@ == (World {
                cells: old(self)@.cells.update(
                    cell_index(old(self)@.width, old(self)@.height, x as int, y as int)->0 as int,
                    old(self)@.cells[cell_index(
                        old(self)@.width,
                        old(self)@.height,
                        x as int,
                        y as int,
                    )->0 as int].ignited(),
                ),
                ..old(self)@
            }),
    {
        proof {
            lemma_cell_index(self.width, self.height, x as int, y as int);
        }
        let idx = y as usize * self.width + x as usize;
        self.grid[idx].material = Material::Fire;
    }

    /// Sets the cell in column `x` and row `y` alight if the grid has it and
    /// it has energy left.
    pub fn try_set_on_fire(&mut self, x: isize, y: isize)
        requires
            old(self).wf(),
        ensures
            final(self).wf(),
            final(self)@ == (World {
                cells: kindle(
                    old(self)@.cells,
                    cell_index(old(self)@.width, old(self)@.height, x as int, y as int),
                ),
                ..old(self)@
            }),
    {
        if let Some(e) = self.energy_at(x, y) {
            if e > 0 {
                self.set_on_fire(x, y);
            }
        }
    }

    /// Whether one of the four cells that share an edge with the place in
    /// column `x` and row `y` burns. The place itself may lie outside the
    /// grid.
    pub fn neighbour_on_fire(&self, x: isize, y: isize) -> (burning: bool)
        requires
            self.wf(),
            isize::MIN < x < isize::MAX,
            isize::MIN < y < isize::MAX,
        ensures
            burning == fire_around(self@.width, self@.height, self@.cells, x as int, y as int),
    {
        if let Some(m) = self.material_at(x, y - 1) {
            if m == Material::Fire {
                return true;
            }
        }
        if let Some(m) = self.material_at(x, y + 1) {
            if m == Material::Fire {
                return true;
            }
        }
        if let Some(m) = self.material_at(x - 1, y) {
            if m == Material::Fire {
                return true;
            }
        }
        if let Some(m) = self.material_at(x + 1, y) {
            if m == Material::Fire {
                return true;
            }
        }
        false
    }

    /// Visits the burning cell at `idx`: it kindles the four cells that share
    /// an edge with it, then burns one unit of its energy, or turns to `Air`
    /// if it had none left.
    pub fn burn(&mut self, idx: usize)
        requires
            old(self).wf(),
            idx < old(self)@.cells.len(),
            old(self)@.cells[idx as int].material == Material::Fire,
        ensures
            final(self).wf(),
            final(self)@ == (World {
                cells: burn(old(self)@.width, old(self)@.height, old(self)@.cells, idx),
                ..old(self)@
            }),
    {
        proof {
            lemma_position(self.width, self.height, idx);
            lemma_sides(self.width, self.height);
            lemma_neighbour(self.width, self.height, idx, 0, -1);
            lemma_neighbour(self.width, self.height, idx, 0, 1);
            lemma_neighbour(self.width, self.height, idx, -1, 0);
            lemma_neighbour(self.width, self.height, idx, 1, 0);
        }
        let x = (idx % self.width) as isize;
        let y = (idx / self.width) as isize;
        let energy = self.grid[idx].energy;

        self.try_set_on_fire(x, y - 1);
        self.try_set_on_fire(x, y + 1);
        self.try_set_on_fire(x - 1, y);
        self.try_set_on_fire(x + 1, y);

        if energy > 0 {
            self.grid[idx].energy -= 1;
        }
        if energy == 0 {
            self.grid[idx].set_material(Material::Air);
        }
    }
}

} // verus!
