//! A falling-material cellular automaton: a grid of particles that sink,
//! rise, flow sideways and burn, advanced one tick at a time.

pub mod budget;
pub mod color;
pub mod laws;
pub mod material;
pub mod particle;
pub mod random;
pub mod rules;
pub mod simulation;
pub mod source;
pub mod walled;
pub mod world;

pub use crate::budget::MovementBudget;
pub use crate::color::Color;
pub use crate::color::Rgba8;
pub use crate::material::Material;
pub use crate::particle::Particle;
pub use crate::rules::Move;
pub use crate::simulation::setup::SeedError;
pub use crate::simulation::Simulation;
pub use crate::source::Source;
pub use crate::world::InsertMode;
