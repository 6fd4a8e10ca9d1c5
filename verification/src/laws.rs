//! What holds of every run: theorems about the update rule and the tick.

use vstd::prelude::*;
use crate::budget::spent;
use crate::material::Material;
use crate::particle::Particle;
use crate::rules::burn;
use crate::rules::burnt;
use crate::rules::cells_wf;
use crate::rules::chosen_move;
use crate::rules::kindle;
use crate::rules::lemma_neighbour;
use crate::rules::neighbour;
use crate::rules::neighbour_on_fire;
use crate::rules::offset;
use crate::rules::probe;
use crate::rules::sink_move;
use crate::rules::swap_allowed;
use crate::rules::swapped;
use crate::rules::takes;
use crate::rules::traverse;
use crate::rules::visit;
use crate::rules::Move;
use crate::rules::Pass;
use crate::source::Source;
use crate::world::World;

verus! {

/// The cell `distance` columns away on the chosen side has the material of
/// the cell at `idx`.
pub open spec fn same_material_beside(
    width: usize,
    height: usize,
    cells: Seq<Particle>,
    idx: usize,
    toward_left: bool,
    distance: int,
) -> bool {
    match neighbour(width, height, idx, offset(toward_left, distance), 0) {
        Some(j) => cells[j as int].material == cells[idx as int].material,
        None => false,
    }
}

/// The move leads to the cell below, to the cell above, or along the row on
/// the chosen side past cells of the mover's own material only.
pub open spec fn reaches(
    width: usize,
    height: usize,
    cells: Seq<Particle>,
    idx: usize,
    toward_left: bool,
    m: Move,
) -> bool {
    ||| m.distance == 1 && neighbour(width, height, idx, 0, 1) == Some(m.target)
    ||| m.distance == 1 && neighbour(width, height, idx, 0, -1) == Some(m.target)
    ||| {
        &&& neighbour(width, height, idx, offset(toward_left, m.distance as int), 0) == Some(
            m.target,
        )
        &&& m.distance > 1 ==> cells[idx as int].viscosity > 2
        &&& forall|d: int|
            1 <= d < m.distance ==> #[trigger] same_material_beside(
                width,
                height,
                cells,
                idx,
                toward_left,
                d,
            )
    }
}

/// What the sideways look finds is a cell of the grid, of another material
/// than the cell that looks, and every cell passed on the way has the
/// looking cell's own material.
pub proof fn lemma_probe(
    width: usize,
    height: usize,
    cells: Seq<Particle>,
    idx: usize,
    toward_left: bool,
    distance: usize,
    reach: usize,
)
    requires
        cells.len() == width * height,
        width * height <= usize::MAX,
        idx < cells.len(),
        1 <= distance,
    ensures
        match probe(width, height, cells, idx, toward_left, distance, reach) {
            Some(m) => {
                &&& distance <= m.distance <= reach
                &&& neighbour(width, height, idx, offset(toward_left, m.distance as int), 0)
                    == Some(m.target)
                &&& m.target < cells.len()
                &&& m.target != idx
                &&& cells[m.target as int].material != cells[idx as int].material
                &&& forall|d: int|
                    distance <= d < m.distance ==> #[trigger] same_material_beside(
                        width,
                        height,
                        cells,
                        idx,
                        toward_left,
                        d,
                    )
            },
            None => true,
        },
    decreases reach - distance,
{
    if distance <= reach {
        lemma_neighbour(width, height, idx, offset(toward_left, distance as int), 0);
        match neighbour(width, height, idx, offset(toward_left, distance as int), 0) {
            Some(j) => {
                if cells[j as int].material == cells[idx as int].material && distance < reach {
                    lemma_probe(
                        width,
                        height,
                        cells,
                        idx,
                        toward_left,
                        (distance + 1) as usize,
                        reach,
                    );
                    assert(same_material_beside(
                        width,
                        height,
                        cells,
                        idx,
                        toward_left,
                        distance as int,
                    ));
                }
            },
            None => {},
        }
    }
}

/// When the sideways look finds nothing, there is nothing to find: within
/// reach, the row holds the looking cell's own material as far as the grid
/// goes.
pub proof fn lemma_probe_finds_nothing(
    width: usize,
    height: usize,
    cells: Seq<Particle>,
    idx: usize,
    toward_left: bool,
    distance: usize,
    reach: usize,
    at: int,
)
    requires
        cells.len() == width * height,
        width * height <= usize::MAX,
        idx < cells.len(),
        1 <= distance,
        probe(width, height, cells, idx, toward_left, distance, reach) is None,
        distance <= at <= reach,
        forall|d: int|
            distance <= d < at ==> #[trigger] same_material_beside(
                width,
                height,
                cells,
                idx,
                toward_left,
                d,
            ),
    ensures
        match neighbour(width, height, idx, offset(toward_left, at), 0) {
            Some(j) => cells[j as int].material == cells[idx as int].material,
            None => true,
        },
    decreases reach - distance,
{
    if distance < at {
        assert(same_material_beside(width, height, cells, idx, toward_left, distance as int));
        lemma_probe_finds_nothing(
            width,
            height,
            cells,
            idx,
            toward_left,
            (distance + 1) as usize,
            reach,
            at,
        );
    }
}

/// The move that a visited cell makes exchanges it with another cell of the
/// grid that it reaches, and the budget admits it.
pub proof fn lemma_chosen_move(
    width: usize,
    height: usize,
    pass: Pass,
    idx: usize,
    toward_left: bool,
)
    requires
        pass.cells.len() == width * height,
        width * height <= usize::MAX,
        idx < pass.cells.len(),
    ensures
        match chosen_move(width, height, pass, idx, toward_left) {
            Some(m) => {
                &&& m.target < pass.cells.len()
                &&& m.target != idx
                &&& m.distance >= 1
                &&& swap_allowed(pass, idx, m.target, m.distance)
                &&& reaches(width, height, pass.cells, idx, toward_left, m)
            },
            None => true,
        },
{
    lemma_neighbour(width, height, idx, 0, 1);
    lemma_neighbour(width, height, idx, 0, -1);
    lemma_neighbour(width, height, idx, offset(toward_left, 1), 0);
    lemma_probe(width, height, pass.cells, idx, toward_left, 1, pass.cells[idx as int].viscosity);
}

/// A fire that reaches out leaves the grid full of well-formed particles
/// and touches no cell but its target.
proof fn lemma_kindle(width: usize, height: usize, cells: Seq<Particle>, target: Option<usize>)
    requires
        cells_wf(width, height, cells),
        target is Some ==> target->0 < cells.len(),
    ensures
        cells_wf(width, height, kindle(cells, target)),
        forall|i: int|
            0 <= i < cells.len() && Some(i as usize) != target ==> #[trigger] kindle(
                cells,
                target,
            )[i] == cells[i],
{
}

/// A burning cell leaves the grid full of well-formed particles.
proof fn lemma_burn_wf(width: usize, height: usize, cells: Seq<Particle>, idx: usize)
    requires
        cells_wf(width, height, cells),
        idx < cells.len(),
        cells[idx as int].material == Material::Fire,
    ensures
        cells_wf(width, height, burn(width, height, cells, idx)),
{
    lemma_neighbour(width, height, idx, 0, 1);
    lemma_neighbour(width, height, idx, 0, -1);
    lemma_neighbour(width, height, idx, -1, 0);
    lemma_neighbour(width, height, idx, 1, 0);
    let up = kindle(cells, neighbour(width, height, idx, 0, -1));
    lemma_kindle(width, height, cells, neighbour(width, height, idx, 0, -1));
    let down = kindle(up, neighbour(width, height, idx, 0, 1));
    lemma_kindle(width, height, up, neighbour(width, height, idx, 0, 1));
    let left = kindle(down, neighbour(width, height, idx, -1, 0));
    lemma_kindle(width, height, down, neighbour(width, height, idx, -1, 0));
    let right = kindle(left, neighbour(width, height, idx, 1, 0));
    lemma_kindle(width, height, left, neighbour(width, height, idx, 1, 0));
    assert(burnt(cells[idx as int]).wf());
}

/// An exchange leaves the grid full of well-formed particles.
proof fn lemma_swapped_wf(
    width: usize,
    height: usize,
    pass: Pass,
    a: usize,
    b: usize,
    distance: usize,
)
    requires
        cells_wf(width, height, pass.cells),
        a < pass.cells.len(),
        b < pass.cells.len(),
    ensures
        cells_wf(width, height, swapped(pass, a, b, distance).cells),
{
}

/// A visit leaves the grid full of well-formed particles.
pub proof fn lemma_visit_wf(width: usize, height: usize, pass: Pass, idx: usize, toward_left: bool)
    requires
        cells_wf(width, height, pass.cells),
        idx < pass.cells.len(),
    ensures
        cells_wf(width, height, visit(width, height, pass, idx, toward_left).cells),
{
    let me = pass.cells[idx as int];
    if me.material == Material::Fire {
        lemma_burn_wf(width, height, pass.cells, idx);
    } else if me.energy > 0 && neighbour_on_fire(width, height, pass.cells, idx) {
        assert(me.ignited().wf());
    } else {
        lemma_chosen_move(width, height, pass, idx, toward_left);
        match chosen_move(width, height, pass, idx, toward_left) {
            Some(m) => {
                lemma_swapped_wf(width, height, pass, idx, m.target, m.distance);
            },
            None => {},
        }
    }
}

/// A traversal leaves the grid full of well-formed particles.
pub proof fn lemma_traverse_wf(
    width: usize,
    height: usize,
    start: Pass,
    order: Seq<usize>,
    choices: Seq<bool>,
    count: nat,
)
    requires
        cells_wf(width, height, start.cells),
        count <= order.len(),
        forall|i: int| 0 <= i < order.len() ==> #[trigger] order[i] < start.cells.len(),
    ensures
        cells_wf(width, height, traverse(width, height, start, order, choices, count).cells),
    decreases count,
{
    if count > 0 {
        lemma_traverse_wf(width, height, start, order, choices, (count - 1) as nat);
        let before = traverse(width, height, start, order, choices, (count - 1) as nat);
        lemma_visit_wf(width, height, before, order[count - 1], choices[count - 1]);
    }
}

/// A tick leaves the world well-formed: the grid keeps its size, the
/// traversal order stays, and every emitter stays on its cell.
pub proof fn lemma_tick_wf(world: World, choices: Seq<bool>)
    requires
        world.wf(),
    ensures
        world.ticked(choices).wf(),
        world.traversed(choices).len() == world.cells.len(),
        world.ticked(choices).cells.len() == world.cells.len(),
        world.ticked(choices).order == world.order,
        world.ticked(choices).sources.dom() == world.sources.dom(),
{
    lemma_traverse_wf(
        world.width,
        world.height,
        world.start(),
        world.order,
        choices,
        world.order.len(),
    );
    assert(world.ticked(choices).sources.dom() =~= world.sources.dom());
}

/// Any number of ticks leave the world well-formed.
pub proof fn lemma_ticks_wf(world: World, rounds: Seq<Seq<bool>>)
    requires
        world.wf(),
    ensures
        world.ticked_through(rounds).wf(),
        world.ticked_through(rounds).cells.len() == world.cells.len(),
        world.ticked_through(rounds).order == world.order,
        world.ticked_through(rounds).sources.dom() == world.sources.dom(),
    decreases rounds.len(),
{
    if rounds.len() > 0 {
        lemma_ticks_wf(world, rounds.drop_last());
        lemma_tick_wf(world.ticked_through(rounds.drop_last()), rounds.last());
    }
}

/// Rock does not move: a visit to any cell leaves a cell of `Rock` as it is,
/// the particle with all that belongs to it.
pub proof fn lemma_visit_keeps_rock(
    width: usize,
    height: usize,
    pass: Pass,
    idx: usize,
    toward_left: bool,
    rock: usize,
)
    requires
        cells_wf(width, height, pass.cells),
        idx < pass.cells.len(),
        rock < pass.cells.len(),
        pass.cells[rock as int].material == Material::Rock,
    ensures
        visit(width, height, pass, idx, toward_left).cells[rock as int] == pass.cells[rock as int],
{
    lemma_neighbour(width, height, idx, 0, 1);
    lemma_neighbour(width, height, idx, 0, -1);
    lemma_neighbour(width, height, idx, -1, 0);
    lemma_neighbour(width, height, idx, 1, 0);
    lemma_chosen_move(width, height, pass, idx, toward_left);
}

/// Rock does not move: a traversal leaves a cell of `Rock` as it is.
pub proof fn lemma_traverse_keeps_rock(
    width: usize,
    height: usize,
    start: Pass,
    order: Seq<usize>,
    choices: Seq<bool>,
    count: nat,
    rock: usize,
)
    requires
        cells_wf(width, height, start.cells),
        count <= order.len(),
        forall|i: int| 0 <= i < order.len() ==> #[trigger] order[i] < start.cells.len(),
        rock < start.cells.len(),
        start.cells[rock as int].material == Material::Rock,
    ensures
        traverse(width, height, start, order, choices, count).cells[rock as int]
            == start.cells[rock as int],
    decreases count,
{
    if count > 0 {
        lemma_traverse_keeps_rock(
            width,
            height,
            start,
            order,
            choices,
            (count - 1) as nat,
            rock,
        );
        lemma_traverse_wf(width, height, start, order, choices, (count - 1) as nat);
        let before = traverse(width, height, start, order, choices, (count - 1) as nat);
        lemma_visit_keeps_rock(width, height, before, order[count - 1], choices[count - 1], rock);
    }
}

/// Rock does not move: whatever the coins show, a tick leaves a cell of
/// `Rock` as it is, the particle with all that belongs to it, unless an
/// emitter of another material is bound to that very cell.
pub proof fn lemma_tick_keeps_rock(world: World, choices: Seq<bool>, rock: usize)
    requires
        world.wf(),
        rock < world.cells.len(),
        world.cells[rock as int].material == Material::Rock,
        world.sources.contains_key(rock) ==> world.sources[rock].material == Material::Rock,
    ensures
        world.ticked(choices).cells[rock as int] == world.cells[rock as int],
{
    lemma_traverse_keeps_rock(
        world.width,
        world.height,
        world.start(),
        world.order,
        choices,
        world.order.len(),
        rock,
    );
    lemma_traverse_wf(
        world.width,
        world.height,
        world.start(),
        world.order,
        choices,
        world.order.len(),
    );
}

/// Rock does not move: any number of ticks leave a cell of `Rock` as it is,
/// unless an emitter of another material is bound to that very cell.
pub proof fn lemma_rock_stays(world: World, rounds: Seq<Seq<bool>>, rock: usize)
    requires
        world.wf(),
        rock < world.cells.len(),
        world.cells[rock as int].material == Material::Rock,
        world.sources.contains_key(rock) ==> world.sources[rock].material == Material::Rock,
    ensures
        world.ticked_through(rounds).cells[rock as int] == world.cells[rock as int],
        world.ticked_through(rounds).sources.contains_key(rock) ==> world.ticked_through(
            rounds,
        ).sources[rock].material == Material::Rock,
    decreases rounds.len(),
{
    if rounds.len() > 0 {
        lemma_rock_stays(world, rounds.drop_last(), rock);
        lemma_ticks_wf(world, rounds.drop_last());
        lemma_tick_keeps_rock(world.ticked_through(rounds.drop_last()), rounds.last(), rock);
    }
}

/// The movement budget holds: what a visit records against a cell stays
/// below the viscosity that the cell had when the move was admitted, and
/// nothing that was recorded is ever taken back.
pub proof fn lemma_visit_within_budget(
    width: usize,
    height: usize,
    pass: Pass,
    idx: usize,
    toward_left: bool,
    cell: usize,
)
    requires
        cells_wf(width, height, pass.cells),
        idx < pass.cells.len(),
    ensures
        spent(pass.moved, cell) <= spent(
            visit(width, height, pass, idx, toward_left).moved,
            cell,
        ),
        spent(pass.moved, cell) != spent(visit(width, height, pass, idx, toward_left).moved, cell)
            ==> cell < pass.cells.len() && spent(
            visit(width, height, pass, idx, toward_left).moved,
            cell,
        ) < pass.cells[cell as int].viscosity,
{
    lemma_chosen_move(width, height, pass, idx, toward_left);
}

/// The movement budget holds through a tick: by the end of any part of a
/// traversal, what is recorded against a cell is below the viscosity that the
/// cell had at some moment of that traversal.
pub proof fn lemma_traverse_within_budget(
    width: usize,
    height: usize,
    start: Pass,
    order: Seq<usize>,
    choices: Seq<bool>,
    count: nat,
    cell: usize,
)
    requires
        cells_wf(width, height, start.cells),
        count <= order.len(),
        forall|i: int| 0 <= i < order.len() ==> #[trigger] order[i] < start.cells.len(),
        start.moved == Map::<usize, usize>::empty(),
    ensures
        spent(traverse(width, height, start, order, choices, count).moved, cell) > 0 ==> cell
            < start.cells.len() && exists|earlier: nat|
            earlier < count && spent(
                traverse(width, height, start, order, choices, count).moved,
                cell,
            ) < (#[trigger] traverse(width, height, start, order, choices, earlier)).cells[cell as int].viscosity,
    decreases count,
{
    if count > 0 {
        let earlier = (count - 1) as nat;
        let before = traverse(width, height, start, order, choices, earlier);
        let after = traverse(width, height, start, order, choices, count);
        lemma_traverse_within_budget(width, height, start, order, choices, earlier, cell);
        lemma_traverse_wf(width, height, start, order, choices, earlier);
        lemma_visit_within_budget(
            width,
            height,
            before,
            order[count - 1],
            choices[count - 1],
            cell,
        );
        if spent(after.moved, cell) > 0 {
            if spent(after.moved, cell) != spent(before.moved, cell) {
                assert(spent(after.moved, cell) < before.cells[cell as int].viscosity);
            } else {
                let witness = choose|k: nat|
                    k < earlier && spent(before.moved, cell) < (#[trigger] traverse(
                        width,
                        height,
                        start,
                        order,
                        choices,
                        k,
                    )).cells[cell as int].viscosity;
                assert(spent(after.moved, cell) < traverse(
                    width,
                    height,
                    start,
                    order,
                    choices,
                    witness,
                ).cells[cell as int].viscosity);
            }
        }
    }
}

/// Fire burns down: a visit to a burning cell takes one unit of its energy,
/// and turns it to `Air` when it had none left. The budget is not touched.
pub proof fn lemma_burning_visit(
    width: usize,
    height: usize,
    pass: Pass,
    idx: usize,
    toward_left: bool,
)
    requires
        cells_wf(width, height, pass.cells),
        idx < pass.cells.len(),
        pass.cells[idx as int].material == Material::Fire,
    ensures
        visit(width, height, pass, idx, toward_left).cells[idx as int] == burnt(
            pass.cells[idx as int],
        ),
        visit(width, height, pass, idx, toward_left).moved == pass.moved,
{
    lemma_neighbour(width, height, idx, 0, 1);
    lemma_neighbour(width, height, idx, 0, -1);
    lemma_neighbour(width, height, idx, -1, 0);
    lemma_neighbour(width, height, idx, 1, 0);
}

/// A cell sinks into a denser one: when a cell that neither burns nor
/// catches fire is visited while the cell below it is denser, the two
/// exchange places, provided neither is `Rock` and the budget admits a move
/// of one cell for both.
pub proof fn lemma_sinks_into_denser(
    width: usize,
    height: usize,
    pass: Pass,
    idx: usize,
    toward_left: bool,
    below: usize,
)
    requires
        cells_wf(width, height, pass.cells),
        idx < pass.cells.len(),
        pass.cells[idx as int].material != Material::Fire,
        !(pass.cells[idx as int].energy > 0 && neighbour_on_fire(width, height, pass.cells, idx)),
        neighbour(width, height, idx, 0, 1) == Some(below),
        pass.cells[below as int].density > pass.cells[idx as int].density,
        swap_allowed(pass, idx, below, 1),
    ensures
        visit(width, height, pass, idx, toward_left) == swapped(pass, idx, below, 1),
        visit(width, height, pass, idx, toward_left).cells[below as int] == pass.cells[idx as int],
        visit(width, height, pass, idx, toward_left).cells[idx as int] == pass.cells[below as int],
{
    lemma_neighbour(width, height, idx, 0, 1);
}

/// A cell rises under a denser one: when a cell that neither burns, nor
/// catches fire, nor sinks is visited while the cell above it is denser, the
/// two exchange places, provided neither is `Rock` and the budget admits a
/// move of one cell for both.
pub proof fn lemma_rises_under_denser(
    width: usize,
    height: usize,
    pass: Pass,
    idx: usize,
    toward_left: bool,
    above: usize,
)
    requires
        cells_wf(width, height, pass.cells),
        idx < pass.cells.len(),
        pass.cells[idx as int].material != Material::Fire,
        !(pass.cells[idx as int].energy > 0 && neighbour_on_fire(width, height, pass.cells, idx)),
        !takes(pass, idx, sink_move(width, height, pass.cells, idx)),
        neighbour(width, height, idx, 0, -1) == Some(above),
        pass.cells[above as int].density > pass.cells[idx as int].density,
        swap_allowed(pass, idx, above, 1),
    ensures
        visit(width, height, pass, idx, toward_left) == swapped(pass, idx, above, 1),
        visit(width, height, pass, idx, toward_left).cells[above as int] == pass.cells[idx as int],
        visit(width, height, pass, idx, toward_left).cells[idx as int] == pass.cells[above as int],
{
    lemma_neighbour(width, height, idx, 0, -1);
}

/// The remainder of a count one step on.
proof fn lemma_mod_step(n: int, r: int)
    requires
        n >= 1,
        r >= 1,
    ensures
        n % r == 0 <==> (n - 1) % r == r - 1,
        n % r != 0 ==> n % r == (n - 1) % r + 1,
{
    let q = (n - 1) / r;
    let m = (n - 1) % r;
    vstd::arithmetic::div_mod::lemma_fundamental_div_mod(n - 1, r);
    vstd::arithmetic::div_mod::lemma_mod_bound(n - 1, r);
    if m + 1 < r {
        vstd::arithmetic::div_mod::lemma_fundamental_div_mod_converse(n, r, q, m + 1);
    } else {
        assert(n == (q + 1) * r) by (nonlinear_arith)
            requires
                n - 1 == r * q + m,
                m + 1 == r,
        ;
        vstd::arithmetic::div_mod::lemma_fundamental_div_mod_converse(n, r, q + 1, 0);
    }
}

/// The countdown of an emitter that was placed with a rate of at least 1,
/// after it was processed at least once.
proof fn lemma_countdown(material: Material, rate: usize, ticks: nat)
    requires
        rate >= 1,
        ticks >= 1,
    ensures
        Source::placed(material, rate).after(ticks) == (Source {
            material,
            rate,
            last_inserted: (rate - (ticks - 1) % (rate as int)) as usize,
        }),
    decreases ticks,
{
    let r = rate as int;
    if ticks == 1 {
        assert(Source::placed(material, rate).after(0) == Source::placed(material, rate));
        vstd::arithmetic::div_mod::lemma_small_mod(0, rate as nat);
    } else {
        lemma_countdown(material, rate, (ticks - 1) as nat);
        lemma_mod_step(ticks - 1, r);
        vstd::arithmetic::div_mod::lemma_mod_bound(ticks - 2, r);
        vstd::arithmetic::div_mod::lemma_mod_bound(ticks - 1, r);
    }
}

/// Emitters are periodic: an emitter placed with a rate of `R`, at least 1,
/// fires in the first tick after it was placed and then in every `R`-th
/// tick, and in no other.
pub proof fn lemma_source_period(material: Material, rate: usize, tick: nat)
    requires
        rate >= 1,
        tick >= 1,
    ensures
        Source::placed(material, rate).after((tick - 1) as nat).spec_fires() <==> (tick - 1) % (
        rate as int) == 0,
{
    let r = rate as int;
    if tick == 1 {
        vstd::arithmetic::div_mod::lemma_small_mod(0, rate as nat);
    } else {
        lemma_countdown(material, rate, (tick - 1) as nat);
        lemma_mod_step(tick - 1, r);
        vstd::arithmetic::div_mod::lemma_mod_bound(tick - 2, r);
    }
}

/// A tick processes every emitter once: it moves each one tick on, and the
/// cell of one that was due holds the emitter's material afterwards.
pub proof fn lemma_tick_emits(world: World, choices: Seq<bool>, idx: usize)
    requires
        world.wf(),
        world.sources.contains_key(idx),
    ensures
        world.ticked(choices).sources.contains_key(idx),
        world.ticked(choices).sources[idx] == world.sources[idx].spec_advanced(),
        world.sources[idx].spec_fires() ==> world.ticked(choices).cells[idx as int]
            == world.traversed(choices)[idx as int].with_material(world.sources[idx].material),
        world.sources[idx].spec_fires() ==> world.ticked(choices).cells[idx as int].material
            == world.sources[idx].material,
{
    lemma_tick_wf(world, choices);
}

/// Ticks only move the emitters on: after any number of ticks an emitter is
/// what that many turns make of it.
pub proof fn lemma_source_after_ticks(world: World, rounds: Seq<Seq<bool>>, idx: usize)
    requires
        world.wf(),
        world.sources.contains_key(idx),
    ensures
        world.ticked_through(rounds).sources.contains_key(idx),
        world.ticked_through(rounds).sources[idx] == world.sources[idx].after(rounds.len()),
    decreases rounds.len(),
{
    if rounds.len() > 0 {
        lemma_source_after_ticks(world, rounds.drop_last(), idx);
        lemma_ticks_wf(world, rounds.drop_last());
        lemma_tick_emits(world.ticked_through(rounds.drop_last()), rounds.last(), idx);
    }
}

/// Emitters are periodic: count the ticks from the placing of an emitter
/// with a rate of `R`, at least 1. At the end of the first tick, and of
/// every `R`-th tick after it, the emitter's cell holds its material,
/// whatever the coins showed and whatever was in the cell.
pub proof fn lemma_source_fires_every_rate(
    world: World,
    rounds: Seq<Seq<bool>>,
    idx: usize,
    material: Material,
    rate: usize,
)
    requires
        world.wf(),
        world.sources.contains_key(idx),
        world.sources[idx] == Source::placed(material, rate),
        rate >= 1,
        rounds.len() >= 1,
        (rounds.len() - 1) % (rate as int) == 0,
    ensures
        world.ticked_through(rounds).cells[idx as int].material == material,
{
    let before = world.ticked_through(rounds.drop_last());
    lemma_source_after_ticks(world, rounds.drop_last(), idx);
    lemma_ticks_wf(world, rounds.drop_last());
    lemma_source_period(material, rate, rounds.len());
    lemma_tick_emits(before, rounds.last(), idx);
    lemma_after_keeps_material(Source::placed(material, rate), (rounds.len() - 1) as nat);
}

/// An emitter keeps its material and its rate.
pub proof fn lemma_after_keeps_material(source: Source, ticks: nat)
    ensures
        source.after(ticks).material == source.material,
        source.after(ticks).rate == source.rate,
    decreases ticks,
{
    if ticks > 0 {
        lemma_after_keeps_material(source, (ticks - 1) as nat);
    }
}

} // verus!
