//! The simulation: the grid, its emitters, and the tick that advances them.

use vstd::prelude::*;
use std::collections::HashMap;
use crate::color::get_material_color;
use crate::color::material_color;
use crate::color::Color;
use crate::material::Material;
use crate::particle::Particle;
use crate::rules::cell_index;
use crate::rules::lemma_cell_index;
use crate::rules::Pass;
use crate::source::Source;
use crate::world::InsertMode;
use crate::world::World;

mod edit;
mod fire;
mod motion;
pub mod setup;
mod tick;

verus! {

/// A grid of particles with its emitters and the settings of its user.
pub struct Simulation {
    width: usize,
    height: usize,
    grid: Vec<Particle>,
    order: Vec<usize>,
    sources: HashMap<usize, Source>,
    material: Material,
    insert_mode: InsertMode,
    insert_rate: usize,
    paused: bool,
    show_materials: bool,
}

impl View for Simulation {
    type V = World;

    closed spec fn view(&self) -> World {
        World {
            width: self.width,
            height: self.height,
            cells: self.grid@,
            order: self.order@,
            sources: self.sources@,
            material: self.material,
            insert_mode: self.insert_mode,
            insert_rate: self.insert_rate,
            paused: self.paused,
            show_materials: self.show_materials,
        }
    }
}

impl Simulation {
    /// The grid is full of well-formed particles, the traversal order is a
    /// permutation of its indices, and every emitter sits on a cell.
    pub open spec fn wf(&self) -> bool {
        self@.wf()
    }

    /// The pass that holds this simulation's cells and the given budget.
    pub open spec fn pass(&self, moved: Map<usize, usize>) -> Pass {
        Pass { cells: self@.cells, moved }
    }

    pub fn width(&self) -> (width: usize)
        ensures
            width == self@.width,
    {
        self.width
    }

    pub fn height(&self) -> (height: usize)
        ensures
            height == self@.height,
    {
        self.height
    }

    /// The particle in column `x` and row `y`, if the grid has that cell.
    pub fn particle_at(&self, x: isize, y: isize) -> (particle: Option<&Particle>)
        requires
            self.wf(),
        ensures
            particle == match cell_index(self@.width, self@.height, x as int, y as int) {
                Some(j) => Some(&self@.cells[j as int]),
                None => None,
            },
    {
        if x >= 0 && (x as usize) < self.width && y >= 0 && (y as usize) < self.height {
            proof {
                lemma_cell_index(self.width, self.height, x as int, y as int);
            }
            let new_idx = (y as usize * self.width) + x as usize;
            Some(&self.grid[new_idx])
        } else {
            None
        }
    }

    pub fn density_at(&self, x: isize, y: isize) -> (density: Option<u8>)
        requires
            self.wf(),
        ensures
            density == match cell_index(self@.width, self@.height, x as int, y as int) {
                Some(j) => Some(self@.cells[j as int].density),
                None => None,
            },
    {
        if let Some(particle) = self.particle_at(x, y) {
            Some(particle.density)
        } else {
            None
        }
    }

    pub fn material_at(&self, x: isize, y: isize) -> (material: Option<Material>)
        requires
            self.wf(),
        ensures
            material == match cell_index(self@.width, self@.height, x as int, y as int) {
                Some(j) => Some(self@.cells[j as int].material),
                None => None,
            },
    {
        if let Some(particle) = self.particle_at(x, y) {
            Some(particle.material)
        } else {
            None
        }
    }

    pub fn energy_at(&self, x: isize, y: isize) -> (energy: Option<usize>)
        requires
            self.wf(),
        ensures
            energy == match cell_index(self@.width, self@.height, x as int, y as int) {
                Some(j) => Some(self@.cells[j as int].energy),
                None => None,
            },
    {
        if let Some(particle) = self.particle_at(x, y) {
            Some(particle.energy)
        } else {
            None
        }
    }

    /// The index of the cell in column `x` and row `y`, if the grid has it.
    pub fn index_at(&self, x: isize, y: isize) -> (idx: Option<usize>)
        requires
            self.wf(),
        ensures
            idx == cell_index(self@.width, self@.height, x as int, y as int),
            idx is Some ==> idx->0 < self@.cells.len(),
    {
        if x >= 0 && (x as usize) < self.width && y >= 0 && (y as usize) < self.height {
            proof {
                lemma_cell_index(self.width, self.height, x as int, y as int);
            }
            Some((y as usize * self.width) + x as usize)
        } else {
            None
        }
    }

    /// The catalog's colour of the material in column `x` and row `y`, with
    /// the variation of the particle there.
    pub fn color_at(&self, x: usize, y: usize) -> (color: Color)
        requires
            self.wf(),
            x < self@.width,
            y < self@.height,
        ensures
            color == material_color(
                self@.cells[y * self@.width + x].material,
                self@.cells[y * self@.width + x].alpha,
            ),
    {
        proof {
            lemma_cell_index(self.width, self.height, x as int, y as int);
        }
        let idx: usize = y * self.width + x;
        get_material_color(self.grid[idx].material, self.grid[idx].alpha)
    }

    /// The own colour of the particle in column `x` and row `y`: the one it
    /// was created with, or the image sample that seeded it.
    pub fn true_color_at(&self, x: usize, y: usize) -> (color: Color)
        requires
            self.wf(),
            x < self@.width,
            y < self@.height,
        ensures
            color == self@.cells[y * self@.width + x].color,
    {
        proof {
            lemma_cell_index(self.width, self.height, x as int, y as int);
        }
        let idx: usize = y * self.width + x;
        self.grid[idx].color
    }

    /// The colour in which the cell in column `x` and row `y` is shown.
    pub fn get_color(&self, x: usize, y: usize) -> (color: Color)
        requires
            self.wf(),
            x < self@.width,
            y < self@.height,
        ensures
            color == if self@.show_materials {
                material_color(
                    self@.cells[y * self@.width + x].material,
                    self@.cells[y * self@.width + x].alpha,
                )
            } else {
                self@.cells[y * self@.width + x].color
            },
    {
        if self.show_materials {
            self.color_at(x, y)
        } else {
            self.true_color_at(x, y)
        }
    }

    /// The emitter bound to the cell in column `x` and row `y`, if any.
    pub fn source_at(&self, x: usize, y: usize) -> (source: Option<Source>)
        requires
            self.wf(),
        ensures
            source == match cell_index(self@.width, self@.height, x as int, y as int) {
                Some(idx) => if self@.sources.contains_key(idx) {
                    Some(self@.sources[idx])
                } else {
                    None
                },
                None => None,
            },
    {
        broadcast use vstd::std_specs::hash::group_hash_axioms;

        if x < self.width && y < self.height {
            proof {
                lemma_cell_index(self.width, self.height, x as int, y as int);
            }
            let idx = y * self.width + x;
            match self.sources.get(&idx) {
                Some(source) => Some(*source),
                None => None,
            }
        } else {
            None
        }
    }

    /// The order in which a tick visits the cells.
    pub fn order(&self) -> (order: &Vec<usize>)
        ensures
            order@ == self@.order,
    {
        &self.order
    }

    /// The material selected for insertion.
    pub fn material(&self) -> (material: Material)
        ensures
            material == self@.material,
    {
        self.material
    }

    pub fn insert_mode(&self) -> (mode: InsertMode)
        ensures
            mode == self@.insert_mode,
    {
        self.insert_mode
    }

    /// The rate given to a newly placed emitter.
    pub fn insert_rate(&self) -> (rate: usize)
        ensures
            rate == self@.insert_rate,
    {
        self.insert_rate
    }

    pub fn paused(&self) -> (paused: bool)
        ensures
            paused == self@.paused,
    {
        self.paused
    }

    pub fn show_materials(&self) -> (shown: bool)
        ensures
            shown == self@.show_materials,
    {
        self.show_materials
    }
}

} // verus!
