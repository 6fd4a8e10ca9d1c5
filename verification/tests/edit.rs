use particles::InsertMode;
use particles::Material;
use particles::Simulation;
use particles::Source;

fn blank(width: usize, height: usize) -> Simulation {
    Simulation::with_order(width, height, (0..width * height).collect()).unwrap()
}

#[test]
fn selecting_a_material_selects_the_mode_too() {
    let mut simulation = blank(2, 2);
    simulation.set_material(Material::Sand, true);
    assert_eq!(simulation.material(), Material::Sand);
    assert_eq!(simulation.insert_mode(), InsertMode::Source);
    simulation.set_material(Material::Gas, false);
    assert_eq!(simulation.material(), Material::Gas);
    assert_eq!(simulation.insert_mode(), InsertMode::Material);
}

#[test]
fn a_higher_digit_is_a_shorter_wait() {
    let mut simulation = blank(1, 1);
    for digit in 0..=10 {
        simulation.set_insert_rate(digit);
        assert_eq!(simulation.insert_rate(), 10 - digit);
    }
}

#[test]
fn inserting_a_material_sets_the_cell() {
    let mut simulation = blank(3, 2);
    simulation.set_material(Material::Oil, false);
    simulation.insert(2, 1);
    assert_eq!(simulation.material_at(2, 1), Some(Material::Oil));
    assert_eq!(simulation.energy_at(2, 1), Some(50));
    assert_eq!(simulation.source_at(2, 1), None);
    for (x, y) in [(0, 0), (1, 0), (2, 0), (0, 1), (1, 1)] {
        assert_eq!(simulation.material_at(x, y), Some(Material::Air));
    }
}

#[test]
fn inserting_an_emitter_leaves_the_cell() {
    let mut simulation = blank(3, 2);
    simulation.set_material(Material::Water, true);
    simulation.set_insert_rate(3);
    simulation.insert(1, 1);
    assert_eq!(simulation.material_at(1, 1), Some(Material::Air));
    assert_eq!(
        simulation.source_at(1, 1),
        Some(Source { material: Material::Water, rate: 7, last_inserted: 0 })
    );
    assert_eq!(simulation.source_at(0, 1), None);
}

#[test]
fn a_second_emitter_replaces_the_first() {
    let mut simulation = blank(2, 2);
    simulation.place_source_at(1, 0, Material::Sand, 4);
    simulation.tick();
    assert_eq!(simulation.source_at(1, 0).unwrap().last_inserted, 4);
    simulation.place_source_at(1, 0, Material::Gas, 9);
    assert_eq!(
        simulation.source_at(1, 0),
        Some(Source { material: Material::Gas, rate: 9, last_inserted: 0 })
    );
}

#[test]
fn placing_a_material_removes_the_emitter() {
    let mut simulation = blank(2, 2);
    simulation.place_source_at(1, 1, Material::Sand, 4);
    simulation.place_source_at(0, 1, Material::Gas, 4);
    simulation.set_material_at(1, 1, Material::Water);
    assert_eq!(simulation.source_at(1, 1), None);
    assert!(simulation.source_at(0, 1).is_some());
    assert_eq!(simulation.material_at(1, 1), Some(Material::Water));
    simulation.set_material(Material::Rock, false);
    simulation.insert(0, 1);
    assert_eq!(simulation.source_at(0, 1), None);
}

#[test]
fn removing_an_emitter_that_is_not_there_does_nothing() {
    let mut simulation = blank(2, 2);
    simulation.place_source_at(0, 0, Material::Oil, 2);
    simulation.remove_source_at(1, 1);
    simulation.remove_source_at(7, 0);
    assert!(simulation.source_at(0, 0).is_some());
    simulation.remove_source_at(0, 0);
    assert_eq!(simulation.source_at(0, 0), None);
    simulation.remove_source_at(0, 0);
    assert_eq!(simulation.source_at(0, 0), None);
}

#[test]
fn clearing_removes_every_emitter() {
    let mut simulation = blank(3, 3);
    for (x, y) in [(0, 0), (1, 2), (2, 1)] {
        simulation.place_source_at(x, y, Material::Sand, 1);
    }
    simulation.clear_sources();
    for y in 0..3 {
        for x in 0..3 {
            assert_eq!(simulation.source_at(x, y), None);
        }
    }
    simulation.tick();
    for y in 0..3 {
        for x in 0..3 {
            assert_eq!(simulation.material_at(x, y), Some(Material::Air));
        }
    }
}

#[test]
fn commands_outside_the_grid_do_nothing() {
    let mut simulation = blank(3, 2);
    for (x, y) in [(3, 0), (0, 2), (3, 2), (usize::MAX, 0), (0, usize::MAX), (usize::MAX, usize::MAX)] {
        simulation.set_material_at(x, y, Material::Rock);
        simulation.place_source_at(x, y, Material::Rock, 1);
        simulation.remove_source_at(x, y);
        simulation.set_material(Material::Sand, false);
        simulation.insert(x, y);
        simulation.set_material(Material::Sand, true);
        simulation.insert(x, y);
        assert_eq!(simulation.source_at(x, y), None);
    }
    for y in 0..2 {
        for x in 0..3 {
            assert_eq!(simulation.material_at(x, y), Some(Material::Air));
            assert_eq!(simulation.source_at(x as usize, y as usize), None);
        }
    }
}

#[test]
fn the_toggles_flip_back_and_forth() {
    let mut simulation = blank(1, 1);
    simulation.toggle_paused();
    assert!(simulation.paused());
    simulation.toggle_paused();
    assert!(!simulation.paused());
    simulation.toggle_show_materials();
    assert!(!simulation.show_materials());
    simulation.toggle_show_materials();
    assert!(simulation.show_materials());
}
