//! The commands of the user: what is selected, and what is placed where.

use vstd::prelude::*;
use crate::material::Material;
use crate::rules::cell_index;
use crate::rules::lemma_cell_index;
use crate::simulation::Simulation;
use crate::source::Source;
use crate::world::InsertMode;
use crate::world::World;
use crate::world::RATE_LIMIT;

verus! {

impl Simulation {
    /// Removes every emitter.
    pub fn clear_sources(&mut self)
        requires
            old(self).wf(),
        ensures
            final(self).wf(),
            final(self)@ == (World { sources: Map::empty(), ..old(self)@ }),
    {
        self.sources.clear();
    }

    /// Pauses a running simulation and lets a paused one run.
    pub fn toggle_paused(&mut self)
        ensures
            final(self)@ == (World { paused: !old(self)@.paused, ..old(self)@ }),
    {
        self.paused = !self.paused;
    }

    /// Switches between the catalog's colours and the cells' own.
    pub fn toggle_show_materials(&mut self)
        ensures
            final(self)@ == (World { show_materials: !old(self)@.show_materials, ..old(self)@ }),
    {
        self.show_materials = !self.show_materials;
    }

    /// Selects the material to insert; with `shift`, what is inserted is an
    /// emitter of that material.
    pub fn set_material(&mut self, material: Material, shift: bool)
        ensures
            final(self)@ == (World {
                material,
                insert_mode: if shift {
                    InsertMode::Source
                } else {
                    InsertMode::Material
                },
                ..old(self)@
            }),
    {
        self.material = material;
        match shift {
            false => self.insert_mode = InsertMode::Material,
            true => self.insert_mode = InsertMode::Source,
        }
    }

    /// Chooses the rate of the emitters placed from now on by a digit: the
    /// higher the digit, the shorter the wait between two emissions.
    pub fn set_insert_rate(&mut self, rate: usize)
        requires
            rate <= RATE_LIMIT,
        ensures
            final(self)@ == (World {
                insert_rate: (RATE_LIMIT - rate) as usize,
                ..old(self)@
            }),
    {
        self.insert_rate = RATE_LIMIT - rate;
    }

    /// Gives the cell in column `x` and row `y` the material `material` and
    /// removes the emitter bound to it, if any. Outside the grid nothing is
    /// done.
    pub fn set_material_at(&mut self, x: usize, y: usize, material: Material)
        requires
            old(self).wf(),
        ensures
            final(self).wf(),
            final(self)@ == match cell_index(old(self)@.width, old(self)@.height, x as int, y as int) {
                Some(idx) => World {
                    cells: old(self)@.cells.update(
                        idx as int,
                        old(self)@.cells[idx as int].with_material(material),
                    ),
                    sources: old(self)@.sources.remove(idx),
                    ..old(self)@
                },
                None => old(self)@,
            },
    {
        broadcast use vstd::std_specs::hash::group_hash_axioms;

        if x < self.width && y < self.height {
            proof {
                lemma_cell_index(self.width, self.height, x as int, y as int);
            }
            let idx = y * self.width + x;
            let ghost head = self@;
            self.grid[idx].set_material(material);
            if self.sources.contains_key(&idx) {
                self.sources.remove(&idx);
            }
            assert(self@.sources =~= head.sources.remove(idx));
        }
    }

    /// Binds an emitter of `material` to the cell in column `x` and row `y`,
    /// in place of the one that may be there. It fires in the next tick and
    /// then every `rate` ticks. Outside the grid nothing is done.
    pub fn place_source_at(&mut self, x: usize, y: usize, material: Material, rate: usize)
        requires
            old(self).wf(),
        ensures
            final(self).wf(),
            final(self)@ == match cell_index(old(self)@.width, old(self)@.height, x as int, y as int) {
                Some(idx) => World {
                    sources: old(self)@.sources.insert(idx, Source::placed(material, rate)),
                    ..old(self)@
                },
                None => old(self)@,
            },
    {
        broadcast use vstd::std_specs::hash::group_hash_axioms;

        if x < self.width && y < self.height {
            proof {
                lemma_cell_index(self.width, self.height, x as int, y as int);
            }
            let idx = y * self.width + x;
            self.sources.insert(idx, Source::new(material, rate));
        }
    }

    /// Removes the emitter bound to the cell in column `x` and row `y`. Where
    /// there is none, and outside the grid, nothing is done.
    pub fn remove_source_at(&mut self, x: usize, y: usize)
        requires
            old(self).wf(),
        ensures
            final(self).wf(),
            final(self)@ == match cell_index(old(self)@.width, old(self)@.height, x as int, y as int) {
                Some(idx) => World { sources: old(self)@.sources.remove(idx), ..old(self)@ },
                None => old(self)@,
            },
    {
        broadcast use vstd::std_specs::hash::group_hash_axioms;

        if x < self.width && y < self.height {
            proof {
                lemma_cell_index(self.width, self.height, x as int, y as int);
            }
            let idx = y * self.width + x;
            let ghost head = self@;
            self.sources.remove(&idx);
            assert(self@.sources =~= head.sources.remove(idx));
        }
    }

    /// Inserts what is selected at the cell in column `x` and row `y`: the
    /// selected material, or an emitter of it with the chosen rate.
    pub fn insert(&mut self, x: usize, y: usize)
        requires
            old(self).wf(),
        ensures
            final(self).wf(),
            final(self)@ == match cell_index(old(self)@.width, old(self)@.height, x as int, y as int) {
                Some(idx) => match old(self)@.insert_mode {
                    InsertMode::Material => World {
                        cells: old(self)@.cells.update(
                            idx as int,
                            old(self)@.cells[idx as int].with_material(old(self)@.material),
                        ),
                        sources: old(self)@.sources.remove(idx),
                        ..old(self)@
                    },
                    InsertMode::Source => World {
                        sources: old(self)@.sources.insert(
                            idx,
                            Source::placed(old(self)@.material, old(self)@.insert_rate),
                        ),
                        ..old(self)@
                    },
                },
                None => old(self)@,
            },
    {
        match self.insert_mode {
            InsertMode::Material => {
                self.set_material_at(x, y, self.material);
            },
            InsertMode::Source => {
                self.place_source_at(x, y, self.material, self.insert_rate);
            },
        }
    }
}

} // verus!
