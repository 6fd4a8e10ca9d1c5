//! Creation and seeding: what fills the grid before it runs.

use vstd::prelude::*;
use std::collections::HashMap;
use crate::color::choose_closest_material;
use crate::color::is_closest_material;
use crate::color::pixel_to_color;
use crate::color::sample_color;
use crate::color::Rgba8;
use crate::material::Material;
use crate::particle::Particle;
use crate::random::choose_alpha;
use crate::random::choose_random_material;
use crate::random::shuffled_order;
use crate::random::thread_rng;
use crate::simulation::Simulation;
use crate::world::is_permutation;
use crate::world::InsertMode;
use crate::world::World;
use crate::world::INITIAL_INSERT_RATE;
use crate::world::INITIAL_MATERIAL;

verus! {

/// Why a grid could not be seeded.
#[derive(Clone, Copy, Debug, PartialEq, Eq, Structural)]
pub enum SeedError {
    /// The samples are not one for each cell of the grid.
    DimensionMismatch { expected: usize, actual: usize },
}

/// A particle as random seeding makes it: fresh, and not burning.
pub open spec fn is_seed(particle: Particle) -> bool {
    &&& particle.material != Material::Fire
    &&& particle.wf()
    &&& particle == Particle::fresh(particle.material, particle.alpha)
}

/// A particle after it was seeded from an image sample: it has the
/// material nearest to the sample, and the sample's own colour.
pub open spec fn is_seeded_from(after: Particle, before: Particle, pixel: Rgba8) -> bool {
    &&& is_closest_material(after.material, pixel)
    &&& after == (Particle { color: sample_color(pixel), ..before.with_material(after.material) })
}

/// Tells whether `order` holds each index below `count` exactly once.
pub fn order_is_permutation(order: &Vec<usize>, count: usize) -> (ok: bool)
    ensures
        ok == is_permutation(order@, count as nat),
{
    if order.len() != count {
        return false;
    }
    let mut seen: Vec<bool> = Vec::new();
    while seen.len() < count
        invariant
            seen@.len() <= count,
            forall|v: int| 0 <= v < seen@.len() ==> !seen@[v],
        decreases count - seen@.len(),
    {
        seen.push(false);
    }
    let ghost mut first_at: Map<int, int> = Map::empty();
    let mut i: usize = 0;
    while i < count
        invariant
            i <= count,
            order@.len() == count,
            seen@.len() == count,
            forall|j: int| 0 <= j < i ==> #[trigger] order@[j] < count,
            forall|j: int| 0 <= j < i ==> seen@[#[trigger] order@[j] as int],
            forall|v: int|
                0 <= v < count && #[trigger] seen@[v] ==> first_at.contains_key(v) && 0
                    <= first_at[v] < i && order@[first_at[v]] == v,
            forall|j: int, k: int| 0 <= j < k < i ==> order@[j] != order@[k],
        decreases count - i,
    {
        let v = order[i];
        if v >= count {
            return false;
        }
        if seen[v] {
            proof {
                let j = first_at[v as int];
                assert(order@[j] == order@[i as int] && j != i);
            }
            return false;
        }
        seen[v] = true;
        proof {
            first_at = first_at.insert(v as int, i as int);
        }
        i = i + 1;
    }
    true
}

impl Simulation {
    /// A grid of `width` by `height` cells, each seeded with a material drawn
    /// at random (never `Fire`) and a variation of its own, to be traversed
    /// in an order that is shuffled once, here.
    pub fn new(width: usize, height: usize) -> (simulation: Simulation)
        requires
            width * height <= isize::MAX,
        ensures
            simulation.wf(),
            simulation@ == World::created(width, height, simulation@.cells, simulation@.order),
            forall|i: int| 0 <= i < simulation@.cells.len() ==> is_seed(#[trigger] simulation@.cells[i]),
    {
        let mut rng = thread_rng();
        let count = width * height;
        let mut grid: Vec<Particle> = Vec::new();
        while grid.len() < count
            invariant
                grid@.len() <= count,
                forall|i: int| 0 <= i < grid@.len() ==> is_seed(#[trigger] grid@[i]),
            decreases count - grid@.len(),
        {
            let material = choose_random_material(&mut rng);
            let alpha = choose_alpha(&mut rng);
            grid.push(Particle::new(material, alpha));
        }
        let order = shuffled_order(&mut rng, count);

        Self {
            width,
            height,
            grid,
            order,
            sources: HashMap::new(),
            material: INITIAL_MATERIAL,
            insert_mode: InsertMode::Material,
            insert_rate: INITIAL_INSERT_RATE,
            paused: false,
            show_materials: true,
        }
    }

    /// A grid of `width` by `height` cells of plain `Air`, to be traversed in
    /// the given order, for runs that can be repeated.
    ///
    /// There is none if the grid would have more cells than can be
    /// addressed, or if `order` is not a permutation of its indices.
    pub fn with_order(width: usize, height: usize, order: Vec<usize>) -> (simulation: Option<
        Simulation,
    >)
        ensures
            simulation is Some <==> width * height <= isize::MAX && is_permutation(
                order@,
                (width * height) as nat,
            ),
            simulation is Some ==> {
                &&& simulation->0.wf()
                &&& simulation->0@ == World::created(
                    width,
                    height,
                    Seq::new((width * height) as nat, |i: int| Particle::fresh(Material::Air, 0)),
                    order@,
                )
            },
    {
        let count = match width.checked_mul(height) {
            Some(count) => count,
            None => {
                return None;
            },
        };
        if count > isize::MAX as usize {
            return None;
        }
        if !order_is_permutation(&order, count) {
            return None;
        }
        let mut grid: Vec<Particle> = Vec::new();
        while grid.len() < count
            invariant
                grid@.len() <= count,
                forall|i: int|
                    0 <= i < grid@.len() ==> #[trigger] grid@[i] == Particle::fresh(
                        Material::Air,
                        0,
                    ),
            decreases count - grid@.len(),
        {
            grid.push(Particle::default());
        }
        assert(grid@ =~= Seq::new(count as nat, |i: int| Particle::fresh(Material::Air, 0)));
        Some(
            Self {
                width,
                height,
                grid,
                order,
                sources: HashMap::new(),
                material: INITIAL_MATERIAL,
                insert_mode: InsertMode::Material,
                insert_rate: INITIAL_INSERT_RATE,
                paused: false,
                show_materials: true,
            },
        )
    }

    /// Gives every cell the material `material`. Each particle keeps its
    /// variation and its own colour.
    pub fn fill_uniform(&mut self, material: Material)
        requires
            old(self).wf(),
        ensures
            final(self).wf(),
            final(self)@ == (World {
                cells: Seq::new(
                    old(self)@.cells.len(),
                    |i: int| old(self)@.cells[i].with_material(material),
                ),
                ..old(self)@
            }),
    {
        let ghost start = self@;
        let count = self.grid.len();
        let mut idx: usize = 0;
        while idx < count
            invariant
                self.wf(),
                idx <= count,
                count == start.cells.len(),
                self@ == (World { cells: self@.cells, ..start }),
                self@.cells.len() == count,
                forall|i: int|
                    0 <= i < count ==> #[trigger] self@.cells[i] == if i < idx {
                        start.cells[i].with_material(material)
                    } else {
                        start.cells[i]
                    },
            decreases count - idx,
        {
            let ghost head = self@;
            self.grid[idx].set_material(material);
            assert(self@.sources == head.sources);
            idx = idx + 1;
        }
        assert(self@.cells =~= Seq::new(
            start.cells.len(),
            |i: int| start.cells[i].with_material(material),
        ));
    }

    /// Gives every cell the material that is selected for insertion.
    pub fn set_all(&mut self)
        requires
            old(self).wf(),
        ensures
            final(self).wf(),
            final(self)@ == (World {
                cells: Seq::new(
                    old(self)@.cells.len(),
                    |i: int| old(self)@.cells[i].with_material(old(self)@.material),
                ),
                ..old(self)@
            }),
    {
        self.fill_uniform(self.material);
    }

    /// Gives every cell a material drawn at random, never `Fire`. Each
    /// particle keeps its variation and its own colour.
    pub fn reset_random(&mut self)
        requires
            old(self).wf(),
        ensures
            final(self).wf(),
            final(self)@ == (World { cells: final(self)@.cells, ..old(self)@ }),
            final(self)@.cells.len() == old(self)@.cells.len(),
            forall|i: int|
                0 <= i < old(self)@.cells.len() ==> {
                    &&& (#[trigger] final(self)@.cells[i]).material != Material::Fire
                    &&& final(self)@.cells[i] == old(self)@.cells[i].with_material(
                        final(self)@.cells[i].material,
                    )
                },
    {
        let mut rng = thread_rng();
        let ghost start = self@;
        let count = self.grid.len();
        let mut idx: usize = 0;
        while idx < count
            invariant
                self.wf(),
                idx <= count,
                count == start.cells.len(),
                self@ == (World { cells: self@.cells, ..start }),
                self@.cells.len() == count,
                forall|i: int|
                    0 <= i < count ==> #[trigger] self@.cells[i] == if i < idx {
                        start.cells[i].with_material(self@.cells[i].material)
                    } else {
                        start.cells[i]
                    },
                forall|i: int| 0 <= i < idx ==> (#[trigger] self@.cells[i]).material != Material::Fire,
            decreases count - idx,
        {
            let material = choose_random_material(&mut rng);
            let ghost head = self@;
            self.grid[idx].set_material(material);
            assert(self@.sources == head.sources);
            idx = idx + 1;
        }
    }

    /// Seeds the grid from the samples of an image of the grid's size, row
    /// after row from the top: each cell takes the material whose colour is
    /// nearest to its sample, and the sample's colour as its own. From then
    /// on the cells are shown in their own colours.
    ///
    /// If the samples are not one for each cell, nothing changes and the
    /// result is `DimensionMismatch`.
    pub fn seed_from_image(&mut self, samples: &Vec<Rgba8>) -> (outcome: Result<(), SeedError>)
        requires
            old(self).wf(),
        ensures
            final(self).wf(),
            match outcome {
                Ok(_) => {
                    &&& samples@.len() == old(self)@.cells.len()
                    &&& final(self)@ == (World {
                        cells: final(self)@.cells,
                        show_materials: false,
                        ..old(self)@
                    })
                    &&& final(self)@.cells.len() == old(self)@.cells.len()
                    &&& forall|i: int|
                        0 <= i < samples@.len() ==> is_seeded_from(
                            #[trigger] final(self)@.cells[i],
                            old(self)@.cells[i],
                            samples@[i],
                        )
                },
                Err(e) => {
                    &&& samples@.len() != old(self)@.cells.len()
                    &&& e == (SeedError::DimensionMismatch {
                        expected: old(self)@.cells.len() as usize,
                        actual: samples@.len() as usize,
                    })
                    &&& final(self)@ == old(self)@
                },
            },
    {
        let count = self.grid.len();
        if samples.len() != count {
            return Err(SeedError::DimensionMismatch { expected: count, actual: samples.len() });
        }
        let ghost start = self@;
        let mut idx: usize = 0;
        while idx < count
            invariant
                self.wf(),
                idx <= count,
                count == start.cells.len(),
                count == samples@.len(),
                self@ == (World { cells: self@.cells, ..start }),
                self@.cells.len() == count,
                forall|i: int| idx <= i < count ==> #[trigger] self@.cells[i] == start.cells[i],
                forall|i: int|
                    0 <= i < idx ==> is_seeded_from(
                        #[trigger] self@.cells[i],
                        start.cells[i],
                        samples@[i],
                    ),
            decreases count - idx,
        {
            let pixel = &samples[idx];
            let ghost head = self@;
            self.grid[idx].set_material(choose_closest_material(pixel));

            // Keep the colour of the image itself.
            self.grid[idx].color = pixel_to_color(pixel);
            assert(self@.sources == head.sources);
            idx = idx + 1;
        }
        self.show_materials = false;
        Ok(())
    }
}

} // verus!
