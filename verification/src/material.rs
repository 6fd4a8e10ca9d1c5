//! The material catalog: the physical constants of each material.

use vstd::prelude::*;

verus! {

/// The materials a cell can hold, declared from lightest to heaviest.
#[derive(Clone, Copy, Debug, PartialEq, Eq, Structural)]
pub enum Material {
    Fire,
    Gas,
    Air,
    Oil,
    Water,
    Sand,
    Rock,
}

/// How many materials the catalog holds.
pub const MATERIAL_COUNT: usize = 7;

/// The largest viscosity in the catalog (that of `Fire`).
pub const MAX_VISCOSITY: usize = 10;

/// The largest baseline energy in the catalog (that of `Oil`).
pub const MAX_ENERGY: usize = 50;

/// The largest density in the catalog (that of `Rock`), in tenths.
pub const MAX_DENSITY: u8 = 20;

impl Material {
    /// Density in tenths of the density of water.
    pub open spec fn spec_density(self) -> u8 {
        match self {
            Material::Fire => 1,
            Material::Gas => 1,
            Material::Air => 3,
            Material::Oil => 9,
            Material::Water => 10,
            Material::Sand => 15,
            Material::Rock => 20,
        }
    }

    /// How many cells a particle of this material may be displaced by within
    /// one tick, exclusive; it is also the reach of its sideways probe.
    pub open spec fn spec_viscosity(self) -> usize {
        match self {
            Material::Fire => 10,
            Material::Gas => 6,
            Material::Air => 5,
            Material::Water => 4,
            Material::Oil => 4,
            Material::Sand => 1,
            Material::Rock => 0,
        }
    }

    /// The fuel a fresh particle of this material carries.
    pub open spec fn spec_base_energy(self) -> usize {
        match self {
            Material::Gas => 10,
            Material::Oil => 50,
            _ => 0,
        }
    }

    /// The position of this material in the declaration order.
    pub open spec fn spec_rank(self) -> usize {
        match self {
            Material::Fire => 0,
            Material::Gas => 1,
            Material::Air => 2,
            Material::Oil => 3,
            Material::Water => 4,
            Material::Sand => 5,
            Material::Rock => 6,
        }
    }

    /// The material declared at position `rank`; `Rock` closes the list.
    pub open spec fn spec_at_rank(rank: usize) -> Material {
        if rank == 0 {
            Material::Fire
        } else if rank == 1 {
            Material::Gas
        } else if rank == 2 {
            Material::Air
        } else if rank == 3 {
            Material::Oil
        } else if rank == 4 {
            Material::Water
        } else if rank == 5 {
            Material::Sand
        } else {
            Material::Rock
        }
    }

    #[verifier::when_used_as_spec(spec_density)]
    pub fn density(self) -> (d: u8)
        ensures
            d == self.spec_density(),
            d <= MAX_DENSITY,
    {
        match self {
            Material::Fire => 1,
            Material::Gas => 1,
            Material::Air => 3,
            Material::Oil => 9,
            Material::Water => 10,
            Material::Sand => 15,
            Material::Rock => 20,
        }
    }

    #[verifier::when_used_as_spec(spec_viscosity)]
    pub fn viscosity(self) -> (v: usize)
        ensures
            v == self.spec_viscosity(),
            v <= MAX_VISCOSITY,
    {
        match self {
            Material::Fire => 10,
            Material::Gas => 6,
            Material::Air => 5,
            Material::Water => 4,
            Material::Oil => 4,
            Material::Sand => 1,
            Material::Rock => 0,
        }
    }

    #[verifier::when_used_as_spec(spec_base_energy)]
    pub fn base_energy(self) -> (e: usize)
        ensures
            e == self.spec_base_energy(),
            e <= MAX_ENERGY,
    {
        match self {
            Material::Gas => 10,
            Material::Oil => 50,
            _ => 0,
        }
    }

    #[verifier::when_used_as_spec(spec_rank)]
    pub fn rank(self) -> (r: usize)
        ensures
            r == self.spec_rank(),
            r < MATERIAL_COUNT,
            Material::spec_at_rank(r) == self,
    {
        match self {
            Material::Fire => 0,
            Material::Gas => 1,
            Material::Air => 2,
            Material::Oil => 3,
            Material::Water => 4,
            Material::Sand => 5,
            Material::Rock => 6,
        }
    }

    /// The material at position `rank` of the declaration order, or `None`
    /// past its end.
    pub fn at_rank(rank: usize) -> (m: Option<Material>)
        ensures
            m == if rank < MATERIAL_COUNT {
                Some(Material::spec_at_rank(rank))
            } else {
                None
            },
            m is Some ==> m->0.spec_rank() == rank,
    {
        match rank {
            0 => Some(Material::Fire),
            1 => Some(Material::Gas),
            2 => Some(Material::Air),
            3 => Some(Material::Oil),
            4 => Some(Material::Water),
            5 => Some(Material::Sand),
            6 => Some(Material::Rock),
            _ => None,
        }
    }
}

/// Heavier materials come later in the declaration order.
pub proof fn lemma_density_follows_rank(a: Material, b: Material)
    requires
        a.spec_rank() <= b.spec_rank(),
    ensures
        a.spec_density() <= b.spec_density(),
{
}

} // verus!
