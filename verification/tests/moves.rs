use particles::Material;
use particles::Move;
use particles::MovementBudget;
use particles::Simulation;

use particles::Material::Air;
use particles::Material::Fire;
use particles::Material::Gas;
use particles::Material::Oil;
use particles::Material::Rock;
use particles::Material::Sand;
use particles::Material::Water;

fn rising(count: usize) -> Vec<usize> {
    (0..count).collect()
}

fn grid(width: usize, height: usize, materials: &[Material]) -> Simulation {
    assert_eq!(materials.len(), width * height);
    let mut simulation = Simulation::with_order(width, height, rising(width * height)).unwrap();
    for (idx, material) in materials.iter().enumerate() {
        simulation.set_material_at(idx % width, idx / width, *material);
    }
    simulation
}

fn materials(simulation: &Simulation) -> Vec<Material> {
    let mut found = Vec::new();
    for y in 0..simulation.height() {
        for x in 0..simulation.width() {
            found.push(simulation.material_at(x as isize, y as isize).unwrap());
        }
    }
    found
}

#[test]
fn lookups_outside_the_grid_find_nothing() {
    let simulation = grid(2, 3, &[Air, Water, Oil, Gas, Sand, Rock]);
    assert_eq!(simulation.material_at(1, 2), Some(Rock));
    assert_eq!(simulation.material_at(0, 1), Some(Oil));
    assert_eq!(simulation.density_at(0, 2), Some(15));
    assert_eq!(simulation.energy_at(1, 1), Some(10));
    assert_eq!(simulation.index_at(1, 2), Some(5));
    assert_eq!(simulation.particle_at(1, 0).unwrap().viscosity, 4);
    for (x, y) in [(-1, 0), (0, -1), (2, 0), (0, 3), (isize::MIN, 0), (0, isize::MAX)] {
        assert_eq!(simulation.material_at(x, y), None);
        assert_eq!(simulation.density_at(x, y), None);
        assert_eq!(simulation.energy_at(x, y), None);
        assert_eq!(simulation.index_at(x, y), None);
        assert!(simulation.particle_at(x, y).is_none());
    }
}

#[test]
fn a_cell_changes_places_with_a_denser_one_below() {
    let mut simulation = grid(1, 2, &[Air, Water]);
    let mut moved = MovementBudget::new();
    simulation.update_tile(0, false, &mut moved);
    assert_eq!(materials(&simulation), vec![Water, Air]);
    assert_eq!(moved.spent(0), 1);
    assert_eq!(moved.spent(1), 1);
}

#[test]
fn a_cell_changes_places_with_a_denser_one_above() {
    let mut simulation = grid(1, 2, &[Water, Air]);
    let mut moved = MovementBudget::new();
    simulation.update_tile(1, true, &mut moved);
    assert_eq!(materials(&simulation), vec![Air, Water]);
    assert_eq!(moved.spent(0), 1);
    assert_eq!(moved.spent(1), 1);
}

#[test]
fn the_whole_particle_travels() {
    let mut simulation = grid(1, 2, &[Air, Oil]);
    let air = *simulation.particle_at(0, 0).unwrap();
    let oil = *simulation.particle_at(0, 1).unwrap();
    let mut moved = MovementBudget::new();
    simulation.update_tile(0, false, &mut moved);
    assert_eq!(*simulation.particle_at(0, 0).unwrap(), oil);
    assert_eq!(*simulation.particle_at(0, 1).unwrap(), air);
}

#[test]
fn rock_is_neither_moved_nor_pushed() {
    let mut simulation = grid(1, 2, &[Air, Rock]);
    let mut moved = MovementBudget::new();
    simulation.update_tile(0, false, &mut moved);
    simulation.update_tile(1, false, &mut moved);
    assert_eq!(materials(&simulation), vec![Air, Rock]);
    assert_eq!(moved.spent(0), 0);
    assert_eq!(moved.spent(1), 0);
    assert!(!simulation.try_swap(0, 0, 1, &mut moved, 0));
    assert!(!simulation.try_swap(1, 0, 0, &mut moved, 0));
}

#[test]
fn sand_cannot_be_displaced_by_a_whole_cell() {
    let mut simulation = grid(1, 2, &[Air, Sand]);
    let mut moved = MovementBudget::new();
    simulation.update_tile(0, false, &mut moved);
    simulation.update_tile(1, false, &mut moved);
    assert_eq!(materials(&simulation), vec![Air, Sand]);
    assert!(!simulation.try_swap(0, 0, 1, &mut moved, 1));
    assert!(simulation.try_swap(0, 0, 1, &mut moved, 0));
    assert_eq!(materials(&simulation), vec![Sand, Air]);
}

#[test]
fn a_swap_is_refused_once_the_budget_is_spent() {
    let mut simulation = grid(1, 2, &[Water, Air]);
    let mut moved = MovementBudget::new();
    assert!(simulation.try_swap(0, 0, 1, &mut moved, 1));
    assert!(simulation.try_swap(0, 0, 1, &mut moved, 1));
    assert!(simulation.try_swap(0, 0, 1, &mut moved, 1));
    assert_eq!(materials(&simulation), vec![Air, Water]);
    assert_eq!(moved.spent(0), 3);
    assert_eq!(moved.spent(1), 3);
    // The water is at index 1 now: 3 + 1 reaches its viscosity of 4.
    assert!(!simulation.try_swap(0, 0, 1, &mut moved, 1));
    assert_eq!(materials(&simulation), vec![Air, Water]);
    assert_eq!(moved.spent(0), 3);
    assert_eq!(moved.spent(1), 3);
}

#[test]
fn a_swap_with_a_cell_outside_the_grid_is_refused() {
    let mut simulation = grid(2, 1, &[Water, Air]);
    let mut moved = MovementBudget::new();
    for (x, y) in [(-1, 0), (2, 0), (0, 1), (0, -1)] {
        assert!(!simulation.try_swap(0, x, y, &mut moved, 1));
    }
    assert_eq!(materials(&simulation), vec![Water, Air]);
    assert_eq!(moved.spent(0), 0);
}

#[test]
fn a_swap_of_a_cell_with_itself_counts_once() {
    let mut simulation = grid(2, 1, &[Water, Air]);
    let mut moved = MovementBudget::new();
    assert!(simulation.try_swap(0, 0, 0, &mut moved, 2));
    assert_eq!(materials(&simulation), vec![Water, Air]);
    assert_eq!(moved.spent(0), 2);
}

#[test]
fn the_probe_finds_the_nearest_other_material() {
    let simulation = grid(5, 1, &[Air, Air, Air, Gas, Water]);
    assert_eq!(simulation.probe(0, false, 5), Some(Move { target: 3, distance: 3 }));
    assert_eq!(simulation.probe(0, false, 3), Some(Move { target: 3, distance: 3 }));
    assert_eq!(simulation.probe(0, false, 2), None);
    assert_eq!(simulation.probe(0, false, 0), None);
    assert_eq!(simulation.probe(0, true, 5), None);
    assert_eq!(simulation.probe(4, true, 5), Some(Move { target: 3, distance: 1 }));
    assert_eq!(simulation.probe(2, true, usize::MAX), None);
    assert_eq!(simulation.probe(3, true, usize::MAX), Some(Move { target: 2, distance: 1 }));
}

#[test]
fn the_probe_stays_in_its_row() {
    let simulation = grid(2, 2, &[Air, Air, Water, Water]);
    assert_eq!(simulation.probe(1, false, 5), None);
    assert_eq!(simulation.probe(2, true, 5), None);
    assert_eq!(simulation.probe(0, false, 5), None);
}

#[test]
fn drag_reaches_past_cells_of_the_same_material() {
    let mut simulation = grid(3, 1, &[Air, Air, Gas]);
    let mut moved = MovementBudget::new();
    assert_eq!(simulation.drag_move(0, false), Some(Move { target: 2, distance: 2 }));
    simulation.update_tile(0, false, &mut moved);
    assert_eq!(materials(&simulation), vec![Gas, Air, Air]);
    assert_eq!(moved.spent(0), 2);
    assert_eq!(moved.spent(1), 0);
    assert_eq!(moved.spent(2), 2);
}

#[test]
fn drag_stops_at_the_first_other_material() {
    let mut simulation = grid(3, 1, &[Air, Water, Gas]);
    let mut moved = MovementBudget::new();
    assert_eq!(simulation.drag_move(0, false), None);
    assert_eq!(simulation.push_move(0, false), Some(Move { target: 1, distance: 1 }));
    simulation.update_tile(0, false, &mut moved);
    assert_eq!(materials(&simulation), vec![Water, Air, Gas]);
    assert_eq!(moved.spent(0), 1);
    assert_eq!(moved.spent(1), 1);
    assert_eq!(moved.spent(2), 0);
}

#[test]
fn drag_reaches_no_further_than_the_budget_allows() {
    let mut simulation = grid(5, 1, &[Water, Water, Water, Water, Gas]);
    let mut moved = MovementBudget::new();
    assert_eq!(simulation.drag_move(0, false), Some(Move { target: 4, distance: 4 }));
    simulation.update_tile(0, false, &mut moved);
    assert_eq!(materials(&simulation), vec![Water, Water, Water, Water, Gas]);
    assert_eq!(moved.spent(0), 0);

    let mut simulation = grid(6, 1, &[Water, Water, Water, Water, Water, Gas]);
    assert_eq!(simulation.drag_move(0, false), None);
    simulation.update_tile(0, false, &mut moved);
    assert_eq!(materials(&simulation), vec![Water, Water, Water, Water, Water, Gas]);

    let mut simulation = grid(4, 1, &[Water, Water, Water, Gas]);
    simulation.update_tile(0, false, &mut moved);
    assert_eq!(materials(&simulation), vec![Gas, Water, Water, Water]);
    assert_eq!(moved.spent(0), 3);
    assert_eq!(moved.spent(3), 3);
}

#[test]
fn cells_of_low_viscosity_do_not_drag() {
    let simulation = grid(2, 1, &[Sand, Gas]);
    assert_eq!(simulation.drag_move(0, false), None);
    let simulation = grid(2, 1, &[Rock, Gas]);
    assert_eq!(simulation.drag_move(0, false), None);
}

#[test]
fn the_coin_picks_the_side() {
    let mut simulation = grid(3, 1, &[Gas, Air, Water]);
    let mut moved = MovementBudget::new();
    simulation.update_tile(1, true, &mut moved);
    assert_eq!(materials(&simulation), vec![Air, Gas, Water]);

    let mut simulation = grid(3, 1, &[Gas, Air, Water]);
    let mut moved = MovementBudget::new();
    simulation.update_tile(1, false, &mut moved);
    assert_eq!(materials(&simulation), vec![Gas, Water, Air]);
}

#[test]
fn nothing_wraps_around_an_edge() {
    let mut simulation = grid(2, 2, &[Air, Water, Air, Gas]);
    let mut moved = MovementBudget::new();
    // The water at the end of row 0 looks right: the cell after it is in row 1.
    assert_eq!(simulation.push_move(1, false), None);
    assert_eq!(simulation.drag_move(1, false), None);
    assert_eq!(simulation.spill_move(1, false), None);
    assert_eq!(simulation.yield_move(1, false), None);
    assert_eq!(simulation.push_move(2, true), None);
    assert_eq!(simulation.rise_move(0), None);
    assert_eq!(simulation.sink_move(2), None);
    simulation.update_tile(2, true, &mut moved);
    simulation.update_tile(1, false, &mut moved);
    assert_eq!(materials(&simulation), vec![Air, Water, Air, Gas]);
}

#[test]
fn sinking_comes_before_rising_and_rising_before_the_rest() {
    let mut simulation = grid(3, 3, &[Air, Water, Air, Gas, Oil, Gas, Air, Sand, Air]);
    assert_eq!(simulation.sink_move(4), Some(Move { target: 7, distance: 1 }));
    assert_eq!(simulation.rise_move(4), Some(Move { target: 1, distance: 1 }));
    assert_eq!(simulation.drag_move(4, true), Some(Move { target: 3, distance: 1 }));
    assert_eq!(simulation.push_move(4, true), Some(Move { target: 3, distance: 1 }));
    let mut moved = MovementBudget::new();
    // The sand below cannot be displaced, so the oil changes places with the
    // water above.
    simulation.update_tile(4, true, &mut moved);
    assert_eq!(materials(&simulation), vec![Air, Oil, Air, Gas, Water, Gas, Air, Sand, Air]);
}

#[test]
fn spilling_and_giving_way_ask_for_the_cell_beside() {
    let simulation = grid(2, 2, &[Water, Oil, Rock, Air]);
    assert_eq!(simulation.spill_move(0, false), Some(Move { target: 1, distance: 1 }));
    assert_eq!(simulation.spill_move(0, true), None);
    let simulation = grid(2, 2, &[Water, Oil, Rock, Sand]);
    assert_eq!(simulation.spill_move(0, false), None);

    let simulation = grid(2, 2, &[Sand, Air, Water, Oil]);
    assert_eq!(simulation.yield_move(2, false), Some(Move { target: 3, distance: 1 }));
    assert_eq!(simulation.yield_move(3, true), None);
    let simulation = grid(2, 2, &[Gas, Air, Water, Oil]);
    assert_eq!(simulation.yield_move(2, false), None);
    assert_eq!(simulation.yield_move(0, false), None);
}

#[test]
fn a_refused_move_leaves_the_next_one_its_turn() {
    let mut simulation = grid(2, 2, &[Water, Gas, Rock, Rock]);
    let mut moved = MovementBudget::new();
    // Sinking is called for, but the cell below is rock; the drag to the
    // gas beside is made instead.
    assert_eq!(simulation.sink_move(0), Some(Move { target: 2, distance: 1 }));
    assert!(!simulation.attempt(0, Some(Move { target: 2, distance: 1 }), &mut moved));
    simulation.update_tile(0, false, &mut moved);
    assert_eq!(materials(&simulation), vec![Gas, Water, Rock, Rock]);
}

#[test]
fn no_attempt_without_a_move() {
    let mut simulation = grid(2, 1, &[Water, Gas]);
    let mut moved = MovementBudget::new();
    assert!(!simulation.attempt(0, None, &mut moved));
    assert!(simulation.attempt(0, Some(Move { target: 1, distance: 2 }), &mut moved));
    assert_eq!(materials(&simulation), vec![Gas, Water]);
    assert_eq!(moved.spent(0), 2);
    assert_eq!(moved.spent(1), 2);
}

#[test]
fn a_burning_cell_kindles_what_has_energy_and_burns_down() {
    let mut simulation = grid(3, 3, &[Air, Oil, Air, Air, Gas, Water, Air, Gas, Air]);
    simulation.set_on_fire(1, 1);
    let oil = *simulation.particle_at(1, 0).unwrap();
    let gas = *simulation.particle_at(1, 2).unwrap();
    let mut moved = MovementBudget::new();
    simulation.update_tile(4, false, &mut moved);
    assert_eq!(materials(&simulation), vec![Air, Fire, Air, Air, Fire, Water, Air, Fire, Air]);
    assert_eq!(simulation.energy_at(1, 1), Some(9));
    let lit = *simulation.particle_at(1, 0).unwrap();
    assert_eq!(lit.energy, 50);
    assert_eq!(lit.density, oil.density);
    assert_eq!(lit.viscosity, oil.viscosity);
    assert_eq!(lit.alpha, oil.alpha);
    assert_eq!(lit.color, oil.color);
    let lit = *simulation.particle_at(1, 2).unwrap();
    assert_eq!(lit.energy, gas.energy);
    assert_eq!(moved.spent(4), 0);
}

#[test]
fn a_burning_cell_does_not_move() {
    let mut simulation = grid(1, 2, &[Gas, Water]);
    simulation.set_on_fire(0, 0);
    let mut moved = MovementBudget::new();
    simulation.update_tile(0, false, &mut moved);
    assert_eq!(materials(&simulation), vec![Fire, Water]);
    assert_eq!(simulation.energy_at(0, 0), Some(9));
}

#[test]
fn a_fire_without_energy_turns_to_air() {
    let mut simulation = grid(1, 1, &[Fire]);
    assert_eq!(simulation.energy_at(0, 0), Some(0));
    let mut moved = MovementBudget::new();
    simulation.update_tile(0, false, &mut moved);
    assert_eq!(materials(&simulation), vec![Air]);
    assert_eq!(simulation.particle_at(0, 0).unwrap().viscosity, 5);
    assert_eq!(simulation.particle_at(0, 0).unwrap().density, 3);
}

#[test]
fn a_cell_with_energy_beside_a_fire_catches_it() {
    for (fire, fuel) in [(1, 4), (7, 4), (3, 4), (5, 4)] {
        let mut cells = [Air; 9];
        cells[fire] = Fire;
        cells[fuel] = Oil;
        let mut simulation = grid(3, 3, &cells);
        let mut moved = MovementBudget::new();
        assert!(simulation.neighbour_on_fire(1, 1));
        simulation.update_tile(fuel, false, &mut moved);
        let lit = *simulation.particle_at(1, 1).unwrap();
        assert_eq!(lit.material, Fire);
        assert_eq!(lit.energy, 50);
        assert_eq!(lit.density, 9);
        assert_eq!(lit.viscosity, 4);
        assert_eq!(moved.spent(fuel), 0);
    }
}

#[test]
fn fire_does_not_reach_across_a_corner() {
    let mut simulation = grid(2, 2, &[Fire, Air, Air, Oil]);
    assert!(!simulation.neighbour_on_fire(1, 1));
    assert!(simulation.neighbour_on_fire(1, 0));
    assert!(simulation.neighbour_on_fire(0, 1));
    let mut moved = MovementBudget::new();
    simulation.update_tile(3, false, &mut moved);
    assert_eq!(simulation.material_at(1, 1), Some(Oil));
}

#[test]
fn fire_is_seen_from_outside_the_grid() {
    let simulation = grid(2, 2, &[Fire, Air, Air, Oil]);
    assert!(simulation.neighbour_on_fire(-1, 0));
    assert!(simulation.neighbour_on_fire(0, -1));
    assert!(!simulation.neighbour_on_fire(0, 0));
    assert!(!simulation.neighbour_on_fire(2, 0));
    assert!(!simulation.neighbour_on_fire(-2, 0));
    assert!(!simulation.neighbour_on_fire(-1, -1));
    assert!(!simulation.neighbour_on_fire(isize::MAX - 1, isize::MIN + 1));
}

#[test]
fn a_cell_without_energy_does_not_catch_fire() {
    let mut simulation = grid(2, 1, &[Fire, Water]);
    let mut moved = MovementBudget::new();
    simulation.update_tile(1, false, &mut moved);
    assert_eq!(simulation.material_at(1, 0), Some(Water));
    simulation.try_set_on_fire(1, 0);
    assert_eq!(simulation.material_at(1, 0), Some(Water));
    simulation.try_set_on_fire(5, 5);
    assert_eq!(materials(&simulation), vec![Fire, Water]);
}
