//! Fire in a cell walled in by rock: nothing reaches it, so it burns down
//! tick by tick and goes out.

use vstd::prelude::*;
use crate::laws::lemma_burning_visit;
use crate::laws::lemma_chosen_move;
use crate::laws::lemma_tick_wf;
use crate::laws::lemma_traverse_wf;
use crate::laws::lemma_visit_keeps_rock;
use crate::laws::same_material_beside;
use crate::material::Material;
use crate::particle::Particle;
use crate::rules::burnt;
use crate::rules::cells_wf;
use crate::rules::chosen_move;
use crate::rules::kindle;
use crate::rules::lemma_neighbour;
use crate::rules::lemma_position;
use crate::rules::neighbour;
use crate::rules::neighbour_on_fire;
use crate::rules::offset;
use crate::rules::traverse;
use crate::rules::visit;
use crate::rules::Pass;
use crate::source::Source;
use crate::world::lemma_permutation_covers;
use crate::world::World;

verus! {

/// There is no cell at `target`, or one of `Rock`.
pub open spec fn is_wall(cells: Seq<Particle>, target: Option<usize>) -> bool {
    match target {
        Some(j) => cells[j as int].material == Material::Rock,
        None => true,
    }
}

/// Each of the four cells that share an edge with `cell` is `Rock`, as far
/// as the grid has them.
pub open spec fn walled_in(width: usize, height: usize, cells: Seq<Particle>, cell: usize) -> bool {
    &&& is_wall(cells, neighbour(width, height, cell, 0, -1))
    &&& is_wall(cells, neighbour(width, height, cell, 0, 1))
    &&& is_wall(cells, neighbour(width, height, cell, -1, 0))
    &&& is_wall(cells, neighbour(width, height, cell, 1, 0))
}

/// No emitter makes a hole at `target`: one bound to that cell emits `Rock`.
pub open spec fn keeps_wall(sources: Map<usize, Source>, target: Option<usize>) -> bool {
    match target {
        Some(j) => sources.contains_key(j) ==> sources[j].material == Material::Rock,
        None => true,
    }
}

/// The cell is walled in by rock for good: no emitter is bound to it, and
/// none makes a hole in its walls.
pub open spec fn sealed(world: World, cell: usize) -> bool {
    &&& cell < world.cells.len()
    &&& walled_in(world.width, world.height, world.cells, cell)
    &&& !world.sources.contains_key(cell)
    &&& keeps_wall(world.sources, neighbour(world.width, world.height, cell, 0, -1))
    &&& keeps_wall(world.sources, neighbour(world.width, world.height, cell, 0, 1))
    &&& keeps_wall(world.sources, neighbour(world.width, world.height, cell, -1, 0))
    &&& keeps_wall(world.sources, neighbour(world.width, world.height, cell, 1, 0))
}

/// What one visit makes of a particle that nothing else reaches: a burning
/// one burns on, any other stays as it is.
pub open spec fn left_alone(particle: Particle) -> Particle {
    if particle.material == Material::Fire {
        burnt(particle)
    } else {
        particle
    }
}

/// What `ticks` visits make of a particle that nothing else reaches.
pub open spec fn left_alone_times(particle: Particle, ticks: nat) -> Particle
    decreases ticks,
{
    if ticks == 0 {
        particle
    } else {
        left_alone(left_alone_times(particle, (ticks - 1) as nat))
    }
}

/// Neighbours are mutual: from the neighbour, the opposite step leads back.
pub proof fn lemma_neighbour_back(width: usize, height: usize, idx: usize, dx: int, dy: int)
    requires
        idx < width * height,
        width * height <= usize::MAX,
    ensures
        match neighbour(width, height, idx, dx, dy) {
            Some(j) => neighbour(width, height, j, -dx, -dy) == Some(idx),
            None => true,
        },
{
    lemma_neighbour(width, height, idx, dx, dy);
    lemma_position(width, height, idx);
}

/// A visit to another cell does not reach into a cell that is walled in.
pub proof fn lemma_visit_elsewhere(
    width: usize,
    height: usize,
    pass: Pass,
    idx: usize,
    toward_left: bool,
    cell: usize,
)
    requires
        cells_wf(width, height, pass.cells),
        idx < pass.cells.len(),
        cell < pass.cells.len(),
        idx != cell,
        walled_in(width, height, pass.cells, cell),
    ensures
        visit(width, height, pass, idx, toward_left).cells[cell as int] == pass.cells[cell as int],
{
    let cells = pass.cells;
    let me = cells[idx as int];
    lemma_neighbour(width, height, idx, 0, -1);
    lemma_neighbour(width, height, idx, 0, 1);
    lemma_neighbour(width, height, idx, -1, 0);
    lemma_neighbour(width, height, idx, 1, 0);
    lemma_neighbour_back(width, height, idx, 0, -1);
    lemma_neighbour_back(width, height, idx, 0, 1);
    lemma_neighbour_back(width, height, idx, -1, 0);
    lemma_neighbour_back(width, height, idx, 1, 0);
    if me.material == Material::Fire {
        let up = kindle(cells, neighbour(width, height, idx, 0, -1));
        let down = kindle(up, neighbour(width, height, idx, 0, 1));
        let left = kindle(down, neighbour(width, height, idx, -1, 0));
        let right = kindle(left, neighbour(width, height, idx, 1, 0));
        assert(up[cell as int] == cells[cell as int]);
        assert(down[cell as int] == cells[cell as int]);
        assert(left[cell as int] == cells[cell as int]);
        assert(right[cell as int] == cells[cell as int]);
    } else if me.energy > 0 && neighbour_on_fire(width, height, cells, idx) {
    } else {
        lemma_chosen_move(width, height, pass, idx, toward_left);
        match chosen_move(width, height, pass, idx, toward_left) {
            Some(m) => {
                if m.target == cell {
                    let step = offset(toward_left, m.distance as int);
                    if neighbour(width, height, idx, step, 0) == Some(cell) && m.distance > 1 {
                        let near = offset(toward_left, m.distance as int - 1);
                        assert(same_material_beside(
                            width,
                            height,
                            cells,
                            idx,
                            toward_left,
                            m.distance as int - 1,
                        ));
                        lemma_neighbour(width, height, idx, step, 0);
                        lemma_neighbour(width, height, idx, near, 0);
                        let last = neighbour(width, height, idx, near, 0)->0;
                        lemma_position(width, height, last);
                        assert(neighbour(width, height, cell, -offset(toward_left, 1), 0) == Some(
                            last,
                        ));
                        assert(cells[last as int].material == Material::Rock);
                    } else {
                        lemma_neighbour_back(width, height, idx, offset(toward_left, 1), 0);
                    }
                    assert(me.material == Material::Rock);
                    assert(false);
                }
            },
            None => {},
        }
    }
}

/// A visit to a cell that is walled in changes it only by burning it down.
pub proof fn lemma_visit_walled(
    width: usize,
    height: usize,
    pass: Pass,
    cell: usize,
    toward_left: bool,
)
    requires
        cells_wf(width, height, pass.cells),
        cell < pass.cells.len(),
        walled_in(width, height, pass.cells, cell),
    ensures
        visit(width, height, pass, cell, toward_left).cells[cell as int] == left_alone(
            pass.cells[cell as int],
        ),
{
    let cells = pass.cells;
    let me = cells[cell as int];
    if me.material == Material::Fire {
        lemma_burning_visit(width, height, pass, cell, toward_left);
    } else {
        lemma_neighbour(width, height, cell, 0, -1);
        lemma_neighbour(width, height, cell, 0, 1);
        lemma_neighbour(width, height, cell, -1, 0);
        lemma_neighbour(width, height, cell, 1, 0);
        assert(!neighbour_on_fire(width, height, cells, cell));
        lemma_chosen_move(width, height, pass, cell, toward_left);
        match chosen_move(width, height, pass, cell, toward_left) {
            Some(m) => {
                if m.distance > 1 {
                    assert(same_material_beside(width, height, cells, cell, toward_left, 1));
                }
                assert(false);
            },
            None => {},
        }
    }
}

/// A visit leaves the walls of a walled-in cell standing.
pub proof fn lemma_walls_stand(
    width: usize,
    height: usize,
    pass: Pass,
    idx: usize,
    toward_left: bool,
    cell: usize,
)
    requires
        cells_wf(width, height, pass.cells),
        idx < pass.cells.len(),
        cell < pass.cells.len(),
        walled_in(width, height, pass.cells, cell),
    ensures
        walled_in(width, height, visit(width, height, pass, idx, toward_left).cells, cell),
{
    lemma_neighbour(width, height, cell, 0, -1);
    lemma_neighbour(width, height, cell, 0, 1);
    lemma_neighbour(width, height, cell, -1, 0);
    lemma_neighbour(width, height, cell, 1, 0);
    if neighbour(width, height, cell, 0, -1) is Some {
        lemma_visit_keeps_rock(
            width,
            height,
            pass,
            idx,
            toward_left,
            neighbour(width, height, cell, 0, -1)->0,
        );
    }
    if neighbour(width, height, cell, 0, 1) is Some {
        lemma_visit_keeps_rock(
            width,
            height,
            pass,
            idx,
            toward_left,
            neighbour(width, height, cell, 0, 1)->0,
        );
    }
    if neighbour(width, height, cell, -1, 0) is Some {
        lemma_visit_keeps_rock(
            width,
            height,
            pass,
            idx,
            toward_left,
            neighbour(width, height, cell, -1, 0)->0,
        );
    }
    if neighbour(width, height, cell, 1, 0) is Some {
        lemma_visit_keeps_rock(
            width,
            height,
            pass,
            idx,
            toward_left,
            neighbour(width, height, cell, 1, 0)->0,
        );
    }
}

/// Part-way through a traversal that visits no cell twice, a walled-in cell
/// is as it was if its turn is still to come, and as its one visit left it
/// if not.
pub proof fn lemma_traverse_walled(
    width: usize,
    height: usize,
    start: Pass,
    order: Seq<usize>,
    choices: Seq<bool>,
    count: nat,
    cell: usize,
)
    requires
        cells_wf(width, height, start.cells),
        count <= order.len(),
        forall|i: int| 0 <= i < order.len() ==> #[trigger] order[i] < start.cells.len(),
        order.no_duplicates(),
        cell < start.cells.len(),
        walled_in(width, height, start.cells, cell),
    ensures
        walled_in(width, height, traverse(width, height, start, order, choices, count).cells, cell),
        traverse(width, height, start, order, choices, count).cells[cell as int] == if order.subrange(
            0,
            count as int,
        ).contains(cell) {
            left_alone(start.cells[cell as int])
        } else {
            start.cells[cell as int]
        },
    decreases count,
{
    if count > 0 {
        let earlier = (count - 1) as nat;
        let before = traverse(width, height, start, order, choices, earlier);
        let idx = order[count - 1];
        lemma_traverse_walled(width, height, start, order, choices, earlier, cell);
        lemma_traverse_wf(width, height, start, order, choices, earlier);
        lemma_walls_stand(width, height, before, idx, choices[count - 1], cell);
        let seen = order.subrange(0, earlier as int);
        let seen_now = order.subrange(0, count as int);
        assert(seen_now[count - 1] == idx);
        if idx == cell {
            assert(seen_now.contains(cell));
            if seen.contains(cell) {
                let i = choose|i: int| 0 <= i < seen.len() && seen[i] == cell;
                assert(order[i] == order[count - 1]);
            }
            lemma_visit_walled(width, height, before, cell, choices[count - 1]);
        } else {
            lemma_visit_elsewhere(width, height, before, idx, choices[count - 1], cell);
            if seen.contains(cell) {
                let i = choose|i: int| 0 <= i < seen.len() && seen[i] == cell;
                assert(seen_now[i] == cell);
            }
            if seen_now.contains(cell) {
                let i = choose|i: int| 0 <= i < seen_now.len() && seen_now[i] == cell;
                assert(seen[i] == cell);
            }
        }
    } else {
        assert(order.subrange(0, 0).len() == 0);
    }
}

/// A tick visits a sealed cell once and nothing else reaches it: a fire in
/// it burns one unit down, anything else stays as it is, and the cell is
/// sealed as before.
pub proof fn lemma_tick_sealed(world: World, choices: Seq<bool>, cell: usize)
    requires
        world.wf(),
        sealed(world, cell),
    ensures
        world.ticked(choices).cells[cell as int] == left_alone(world.cells[cell as int]),
        sealed(world.ticked(choices), cell),
{
    let count = world.order.len();
    lemma_traverse_walled(
        world.width,
        world.height,
        world.start(),
        world.order,
        choices,
        count,
        cell,
    );
    lemma_traverse_wf(world.width, world.height, world.start(), world.order, choices, count);
    lemma_tick_wf(world, choices);
    lemma_permutation_covers(world.order, count, cell);
    assert(world.order.subrange(0, count as int) =~= world.order);
    lemma_neighbour(world.width, world.height, cell, 0, -1);
    lemma_neighbour(world.width, world.height, cell, 0, 1);
    lemma_neighbour(world.width, world.height, cell, -1, 0);
    lemma_neighbour(world.width, world.height, cell, 1, 0);
}

/// Any number of ticks leave a sealed cell to itself.
pub proof fn lemma_ticks_sealed(world: World, rounds: Seq<Seq<bool>>, cell: usize)
    requires
        world.wf(),
        sealed(world, cell),
    ensures
        world.ticked_through(rounds).wf(),
        sealed(world.ticked_through(rounds), cell),
        world.ticked_through(rounds).cells[cell as int] == left_alone_times(
            world.cells[cell as int],
            rounds.len(),
        ),
    decreases rounds.len(),
{
    if rounds.len() > 0 {
        lemma_ticks_sealed(world, rounds.drop_last(), cell);
        lemma_tick_wf(world.ticked_through(rounds.drop_last()), rounds.last());
        lemma_tick_sealed(world.ticked_through(rounds.drop_last()), rounds.last(), cell);
    }
}

/// Left to itself, a fire with energy `E` burns for `E` ticks, is `Air` after
/// one tick more, and stays `Air`.
pub proof fn lemma_left_alone_fire(particle: Particle, ticks: nat)
    requires
        particle.material == Material::Fire,
    ensures
        ticks <= particle.energy ==> left_alone_times(particle, ticks) == (Particle {
            energy: (particle.energy - ticks) as usize,
            ..particle
        }),
        ticks > particle.energy ==> left_alone_times(particle, ticks) == particle.with_material(
            Material::Air,
        ),
    decreases ticks,
{
    if ticks > 0 {
        lemma_left_alone_fire(particle, (ticks - 1) as nat);
    }
}

/// Fire goes out: a fire with energy `E` in a sealed cell still burns after
/// each of the next `E` ticks, with one unit of energy less each time; after
/// `E + 1` ticks, and from then on, the cell holds `Air`. The coins have no
/// say in it.
pub proof fn lemma_sealed_fire_goes_out(world: World, rounds: Seq<Seq<bool>>, cell: usize)
    requires
        world.wf(),
        sealed(world, cell),
        world.cells[cell as int].material == Material::Fire,
    ensures
        rounds.len() <= world.cells[cell as int].energy ==> world.ticked_through(
            rounds,
        ).cells[cell as int] == (Particle {
            energy: (world.cells[cell as int].energy - rounds.len()) as usize,
            ..world.cells[cell as int]
        }),
        rounds.len() > world.cells[cell as int].energy ==> world.ticked_through(
            rounds,
        ).cells[cell as int] == world.cells[cell as int].with_material(Material::Air),
{
    lemma_ticks_sealed(world, rounds, cell);
    lemma_left_alone_fire(world.cells[cell as int], rounds.len());
}

} // verus!
