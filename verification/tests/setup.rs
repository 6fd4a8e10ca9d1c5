use particles::color::get_material_color;
use particles::color::pixel_to_color;
use particles::simulation::setup::order_is_permutation;
use particles::InsertMode;
use particles::Material;
use particles::Particle;
use particles::Rgba8;
use particles::SeedError;
use particles::Simulation;

fn all_particles(simulation: &Simulation) -> Vec<Particle> {
    let mut found = Vec::new();
    for y in 0..simulation.height() {
        for x in 0..simulation.width() {
            found.push(*simulation.particle_at(x as isize, y as isize).unwrap());
        }
    }
    found
}

#[test]
fn a_new_grid_is_seeded_without_fire() {
    let simulation = Simulation::new(16, 11);
    assert_eq!(simulation.width(), 16);
    assert_eq!(simulation.height(), 11);
    let particles = all_particles(&simulation);
    assert_eq!(particles.len(), 176);
    for particle in &particles {
        assert_ne!(particle.material, Material::Fire);
        assert!(particle.alpha <= 100);
        assert_eq!(*particle, Particle::new(particle.material, particle.alpha));
    }
    assert!(simulation.particle_at(16, 0).is_none());
    assert!(simulation.particle_at(0, 11).is_none());
}

#[test]
fn a_new_simulation_runs_with_rock_selected() {
    let simulation = Simulation::new(2, 2);
    assert_eq!(simulation.material(), Material::Rock);
    assert_eq!(simulation.insert_mode(), InsertMode::Material);
    assert_eq!(simulation.insert_rate(), 5);
    assert!(!simulation.paused());
    assert!(simulation.show_materials());
    for y in 0..2 {
        for x in 0..2 {
            assert_eq!(simulation.source_at(x, y), None);
        }
    }
}

#[test]
fn the_traversal_order_is_a_shuffled_permutation() {
    let simulation = Simulation::new(20, 20);
    let order = simulation.order().clone();
    assert_eq!(order.len(), 400);
    assert!(order_is_permutation(&order, 400));
    let mut sorted = order.clone();
    sorted.sort();
    assert_eq!(sorted, (0..400).collect::<Vec<usize>>());
    assert_ne!(order, sorted);
}

#[test]
fn the_traversal_order_stays_from_tick_to_tick() {
    let mut simulation = Simulation::new(8, 8);
    let order = simulation.order().clone();
    for _ in 0..5 {
        simulation.tick();
        assert_eq!(*simulation.order(), order);
    }
    simulation.reset_random();
    simulation.set_all();
    assert_eq!(*simulation.order(), order);
}

#[test]
fn permutations_are_told_from_other_orders() {
    assert!(order_is_permutation(&vec![], 0));
    assert!(order_is_permutation(&vec![0], 1));
    assert!(order_is_permutation(&vec![2, 0, 3, 1], 4));
    assert!(!order_is_permutation(&vec![0], 0));
    assert!(!order_is_permutation(&vec![], 1));
    assert!(!order_is_permutation(&vec![1], 1));
    assert!(!order_is_permutation(&vec![0, 0], 2));
    assert!(!order_is_permutation(&vec![0, 1, 1, 3], 4));
    assert!(!order_is_permutation(&vec![0, 1, 2], 4));
    assert!(!order_is_permutation(&vec![0, 1, 2, 4], 4));
    assert!(!order_is_permutation(&vec![0, 1, 2, usize::MAX], 4));
}

#[test]
fn a_grid_with_a_given_order_is_plain_air() {
    let simulation = Simulation::with_order(3, 2, vec![5, 4, 3, 2, 1, 0]).unwrap();
    assert_eq!(*simulation.order(), vec![5, 4, 3, 2, 1, 0]);
    assert_eq!(simulation.width(), 3);
    assert_eq!(simulation.height(), 2);
    for particle in all_particles(&simulation) {
        assert_eq!(particle, Particle::default());
    }
    assert_eq!(simulation.material(), Material::Rock);
    assert_eq!(simulation.insert_mode(), InsertMode::Material);
    assert_eq!(simulation.insert_rate(), 5);
    assert!(!simulation.paused());
    assert!(simulation.show_materials());
}

#[test]
fn a_given_order_must_be_a_permutation_of_the_cells() {
    assert!(Simulation::with_order(3, 2, vec![0, 1, 2, 3, 4]).is_none());
    assert!(Simulation::with_order(3, 2, vec![0, 1, 2, 3, 4, 4]).is_none());
    assert!(Simulation::with_order(3, 2, vec![0, 1, 2, 3, 4, 6]).is_none());
    assert!(Simulation::with_order(2, 3, vec![0, 1, 2, 3, 4, 5]).is_some());
    assert!(Simulation::with_order(0, 0, vec![]).is_some());
    assert!(Simulation::with_order(0, 0, vec![0]).is_none());
}

#[test]
fn a_grid_too_large_to_address_is_refused() {
    assert!(Simulation::with_order(usize::MAX, 2, vec![]).is_none());
    assert!(Simulation::with_order(usize::MAX, usize::MAX, vec![]).is_none());
    assert!(Simulation::with_order(usize::MAX, 1, vec![]).is_none());
    assert!(Simulation::with_order(usize::MAX, 0, vec![]).is_some());
}

#[test]
fn fill_uniform_changes_the_material_only() {
    let mut simulation = Simulation::new(5, 4);
    let before = all_particles(&simulation);
    simulation.fill_uniform(Material::Oil);
    for (old, new) in before.iter().zip(all_particles(&simulation)) {
        assert_eq!(new.material, Material::Oil);
        assert_eq!(new.energy, 50);
        assert_eq!(new.density, 9);
        assert_eq!(new.viscosity, 4);
        assert_eq!(new.alpha, old.alpha);
        assert_eq!(new.color, old.color);
    }
}

#[test]
fn set_all_fills_with_the_selected_material() {
    let mut simulation = Simulation::new(5, 4);
    simulation.place_source_at(1, 1, Material::Gas, 2);
    simulation.set_all();
    for particle in all_particles(&simulation) {
        assert_eq!(particle.material, Material::Rock);
    }
    simulation.set_material(Material::Water, true);
    simulation.set_all();
    for particle in all_particles(&simulation) {
        assert_eq!(particle.material, Material::Water);
        assert_eq!(particle.viscosity, 4);
    }
    assert!(simulation.source_at(1, 1).is_some());
}

#[test]
fn reset_random_keeps_alpha_and_colour() {
    let mut simulation = Simulation::new(12, 12);
    simulation.fill_uniform(Material::Fire);
    let before = all_particles(&simulation);
    simulation.reset_random();
    let after = all_particles(&simulation);
    let mut kinds = Vec::new();
    for (old, new) in before.iter().zip(after.iter()) {
        assert_ne!(new.material, Material::Fire);
        let mut expected = *old;
        expected.set_material(new.material);
        assert_eq!(*new, expected);
        if !kinds.contains(&new.material) {
            kinds.push(new.material);
        }
    }
    assert!(kinds.len() > 1);
}

#[test]
fn seeding_from_an_image_classifies_every_sample() {
    let mut simulation = Simulation::with_order(2, 2, vec![0, 1, 2, 3]).unwrap();
    let samples = vec![
        Rgba8 { red: 255, green: 0, blue: 0, alpha: 191 },
        Rgba8 { red: 0, green: 0, blue: 255, alpha: 191 },
        Rgba8 { red: 128, green: 128, blue: 128, alpha: 217 },
        Rgba8 { red: 255, green: 255, blue: 255, alpha: 140 },
    ];
    assert_eq!(simulation.seed_from_image(&samples), Ok(()));
    let expected = [Material::Fire, Material::Water, Material::Oil, Material::Rock];
    for (idx, particle) in all_particles(&simulation).iter().enumerate() {
        assert_eq!(*particle, Particle {
            color: pixel_to_color(&samples[idx]),
            ..Particle::new(expected[idx], 0)
        });
    }
    assert!(!simulation.show_materials());
    assert_eq!(simulation.true_color_at(1, 0), pixel_to_color(&samples[1]));
    assert_eq!(simulation.get_color(1, 0), pixel_to_color(&samples[1]));
    assert_eq!(simulation.color_at(1, 0), get_material_color(Material::Water, 0));
    simulation.toggle_show_materials();
    assert_eq!(simulation.get_color(1, 0), get_material_color(Material::Water, 0));
}

#[test]
fn samples_of_another_size_are_refused() {
    let mut simulation = Simulation::new(3, 2);
    let before = all_particles(&simulation);
    let pixel = Rgba8 { red: 1, green: 2, blue: 3, alpha: 4 };
    assert_eq!(
        simulation.seed_from_image(&vec![pixel; 5]),
        Err(SeedError::DimensionMismatch { expected: 6, actual: 5 })
    );
    assert_eq!(
        simulation.seed_from_image(&vec![pixel; 7]),
        Err(SeedError::DimensionMismatch { expected: 6, actual: 7 })
    );
    assert_eq!(
        simulation.seed_from_image(&Vec::new()),
        Err(SeedError::DimensionMismatch { expected: 6, actual: 0 })
    );
    assert_eq!(all_particles(&simulation), before);
    assert!(simulation.show_materials());
    assert_eq!(simulation.seed_from_image(&vec![pixel; 6]), Ok(()));
}

#[test]
fn an_empty_grid_takes_an_empty_image() {
    let mut simulation = Simulation::new(0, 3);
    assert_eq!(simulation.seed_from_image(&Vec::new()), Ok(()));
    assert!(!simulation.show_materials());
}

#[test]
fn colours_follow_the_material_or_the_particle() {
    let mut simulation = Simulation::new(4, 4);
    let particle = *simulation.particle_at(2, 3).unwrap();
    assert_eq!(simulation.color_at(2, 3), get_material_color(particle.material, particle.alpha));
    assert_eq!(simulation.true_color_at(2, 3), particle.color);
    assert_eq!(simulation.get_color(2, 3), simulation.color_at(2, 3));
    simulation.set_material_at(2, 3, Material::Fire);
    assert_eq!(simulation.color_at(2, 3), get_material_color(Material::Fire, particle.alpha));
    assert_eq!(simulation.true_color_at(2, 3), particle.color);
    simulation.toggle_show_materials();
    assert_eq!(simulation.get_color(2, 3), particle.color);
}
