//! The state of one cell.

use vstd::prelude::*;
use crate::color::get_material_color;
use crate::color::material_color;
use crate::color::Color;
use crate::color::ALPHA_FULL;
use crate::material::Material;
use crate::material::MAX_DENSITY;
use crate::material::MAX_ENERGY;
use crate::material::MAX_VISCOSITY;

verus! {

/// One cell's particle.
///
/// `energy`, `density` and `viscosity` are copies of the catalog's values for
/// the material that the particle was last given by `set_material`. A
/// particle that caught fire keeps those of its fuel, and burns its energy
/// down.
#[derive(Clone, Copy, Debug, PartialEq, Eq, Structural)]
pub struct Particle {
    pub material: Material,
    /// A visual variation fixed at creation, in percent.
    pub alpha: u8,
    /// The fuel that is left.
    pub energy: usize,
    /// In tenths of the density of water.
    pub density: u8,
    pub viscosity: usize,
    /// The colour given at creation, or the image sample that seeded the cell.
    pub color: Color,
}

impl Particle {
    /// This particle with the catalog's values of `material` in place of its
    /// own; `alpha` and `color` stay.
    pub open spec fn with_material(self, material: Material) -> Particle {
        Particle {
            material,
            energy: material.spec_base_energy(),
            density: material.spec_density(),
            viscosity: material.spec_viscosity(),
            ..self
        }
    }

    /// A fresh particle of `material`.
    pub open spec fn fresh(material: Material, alpha: u8) -> Particle {
        Particle {
            material,
            alpha,
            energy: material.spec_base_energy(),
            density: material.spec_density(),
            viscosity: material.spec_viscosity(),
            color: material_color(material, alpha),
        }
    }

    /// This particle set alight: only the material changes.
    pub open spec fn ignited(self) -> Particle {
        Particle { material: Material::Fire, ..self }
    }

    /// The cached values agree with the catalog.
    pub open spec fn matches_catalog(self) -> bool {
        &&& self.energy == self.material.spec_base_energy()
        &&& self.density == self.material.spec_density()
        &&& self.viscosity == self.material.spec_viscosity()
    }

    /// Every particle but a burning one agrees with the catalog; a burning
    /// one stays within the catalog's bounds.
    pub open spec fn wf(self) -> bool {
        &&& self.alpha <= ALPHA_FULL
        &&& self.color.wf()
        &&& self.energy <= MAX_ENERGY
        &&& self.density <= MAX_DENSITY
        &&& self.viscosity <= MAX_VISCOSITY
        &&& self.material != Material::Fire ==> self.matches_catalog()
    }

    pub fn new(material: Material, alpha: u8) -> (particle: Particle)
        requires
            alpha <= ALPHA_FULL,
        ensures
            particle == Particle::fresh(material, alpha),
            particle.wf(),
    {
        let mut particle = Particle::default();
        particle.alpha = alpha;
        particle.set_material(material);
        particle.color = get_material_color(material, alpha);
        particle
    }

    /// Changes the material and takes the catalog's energy, density and
    /// viscosity for it.
    pub fn set_material(&mut self, material: Material)
        ensures
            *final(self) == old(self).with_material(material),
            old(self).alpha <= ALPHA_FULL && old(self).color.wf() ==> final(self).wf(),
    {
        self.material = material;
        self.energy = material.base_energy();
        self.density = material.density();
        self.viscosity = material.viscosity();
    }
}

impl Default for Particle {
    /// A particle of `Air` without variation.
    fn default() -> (particle: Particle)
        ensures
            particle == Particle::fresh(Material::Air, 0),
            particle.wf(),
    {
        Particle {
            material: Material::Air,
            alpha: 0,
            energy: 0,
            density: 3,
            viscosity: 5,
            color: Color { red: 0, green: 0, blue: 0, alpha: 0 },
        }
    }
}

} // verus!
