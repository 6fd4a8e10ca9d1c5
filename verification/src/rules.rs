//! The update rule of one cell, stated over sequences and maps.
//!
//! A cell is visited once per tick. A burning cell kindles its neighbours and
//! burns down; a cell with fuel beside a fire catches it; any other cell makes
//! the first of six moves that its surroundings call for and that the
//! movement budget admits.

use vstd::prelude::*;
use crate::budget::admits;
use crate::budget::recorded;
use crate::material::Material;
use crate::particle::Particle;

verus! {

/// The grid's cells and the movement budget, part-way through a tick.
pub struct Pass {
    pub cells: Seq<Particle>,
    pub moved: Map<usize, usize>,
}

/// A move that a rule calls for: the cell to exchange places with, and the
/// distance that the exchange costs both cells.
#[derive(Clone, Copy, Debug, PartialEq, Eq, Structural)]
pub struct Move {
    pub target: usize,
    pub distance: usize,
}

/// The index of the cell in column `x` and row `y`, if the grid has one.
/// Row 0 is the top row, and rows are stored one after another.
pub open spec fn cell_index(width: usize, height: usize, x: int, y: int) -> Option<usize> {
    if 0 <= x < width && 0 <= y < height {
        Some((y * width + x) as usize)
    } else {
        None
    }
}

/// The column of the cell at `idx`.
pub open spec fn column(width: usize, idx: usize) -> int {
    idx as int % width as int
}

/// The row of the cell at `idx`.
pub open spec fn row(width: usize, idx: usize) -> int {
    idx as int / width as int
}

/// The cell `dx` columns to the right of and `dy` rows below the cell at
/// `idx`, if the grid has one. Nothing wraps around an edge.
pub open spec fn neighbour(width: usize, height: usize, idx: usize, dx: int, dy: int) -> Option<
    usize,
> {
    cell_index(width, height, column(width, idx) + dx, row(width, idx) + dy)
}

/// The column offset of a cell `distance` columns away on the chosen side.
pub open spec fn offset(toward_left: bool, distance: int) -> int {
    if toward_left {
        -distance
    } else {
        distance
    }
}

/// The cells after a fire reached out to `target`: a cell there with energy
/// left is set alight.
pub open spec fn kindle(cells: Seq<Particle>, target: Option<usize>) -> Seq<Particle> {
    match target {
        Some(j) => if cells[j as int].energy > 0 {
            cells.update(j as int, cells[j as int].ignited())
        } else {
            cells
        },
        None => cells,
    }
}

/// A burning particle one visit later: one unit of energy poorer, or, when
/// it had none left, `Air`.
pub open spec fn burnt(particle: Particle) -> Particle {
    if particle.energy > 0 {
        Particle { energy: (particle.energy - 1) as usize, ..particle }
    } else {
        particle.with_material(Material::Air)
    }
}

/// The cells after the burning cell at `idx` was visited.
pub open spec fn burn(width: usize, height: usize, cells: Seq<Particle>, idx: usize) -> Seq<
    Particle,
> {
    let up = kindle(cells, neighbour(width, height, idx, 0, -1));
    let down = kindle(up, neighbour(width, height, idx, 0, 1));
    let left = kindle(down, neighbour(width, height, idx, -1, 0));
    let right = kindle(left, neighbour(width, height, idx, 1, 0));
    right.update(idx as int, burnt(cells[idx as int]))
}

/// There is a burning cell at `target`.
pub open spec fn on_fire(cells: Seq<Particle>, target: Option<usize>) -> bool {
    match target {
        Some(j) => cells[j as int].material == Material::Fire,
        None => false,
    }
}

/// One of the four cells that share an edge with the place in column `x` and
/// row `y` burns.
pub open spec fn fire_around(width: usize, height: usize, cells: Seq<Particle>, x: int, y: int) -> bool {
    ||| on_fire(cells, cell_index(width, height, x, y - 1))
    ||| on_fire(cells, cell_index(width, height, x, y + 1))
    ||| on_fire(cells, cell_index(width, height, x - 1, y))
    ||| on_fire(cells, cell_index(width, height, x + 1, y))
}

/// One of the four cells that share an edge with the cell at `idx` burns.
pub open spec fn neighbour_on_fire(width: usize, height: usize, cells: Seq<Particle>, idx: usize) -> bool {
    fire_around(width, height, cells, column(width, idx), row(width, idx))
}

/// The cells at `a` and `b` may exchange places at the cost of `distance`:
/// neither is `Rock`, and the budget admits the move for both.
pub open spec fn swap_allowed(pass: Pass, a: usize, b: usize, distance: usize) -> bool {
    &&& pass.cells[a as int].material != Material::Rock
    &&& pass.cells[b as int].material != Material::Rock
    &&& admits(pass.moved, a, distance, pass.cells[a as int].viscosity)
    &&& admits(pass.moved, b, distance, pass.cells[b as int].viscosity)
}

/// The pass after the particles at `a` and `b` exchanged places and
/// `distance` was recorded against each of the two cells.
pub open spec fn swapped(pass: Pass, a: usize, b: usize, distance: usize) -> Pass {
    Pass {
        cells: pass.cells.update(a as int, pass.cells[b as int]).update(
            b as int,
            pass.cells[a as int],
        ),
        moved: if a == b {
            recorded(pass.moved, a, distance)
        } else {
            recorded(recorded(pass.moved, a, distance), b, distance)
        },
    }
}

/// The pass after an attempt to exchange `a` and `b`.
pub open spec fn after_swap_attempt(pass: Pass, a: usize, b: usize, distance: usize) -> Pass {
    if swap_allowed(pass, a, b, distance) {
        swapped(pass, a, b, distance)
    } else {
        pass
    }
}

/// Sinking: the cell below is denser than this one.
pub open spec fn sink_move(width: usize, height: usize, cells: Seq<Particle>, idx: usize) -> Option<
    Move,
> {
    match neighbour(width, height, idx, 0, 1) {
        Some(below) => if cells[below as int].density > cells[idx as int].density {
            Some(Move { target: below, distance: 1 })
        } else {
            None
        },
        None => None,
    }
}

/// Rising: the cell above is denser than this one.
pub open spec fn rise_move(width: usize, height: usize, cells: Seq<Particle>, idx: usize) -> Option<
    Move,
> {
    match neighbour(width, height, idx, 0, -1) {
        Some(above) => if cells[above as int].density > cells[idx as int].density {
            Some(Move { target: above, distance: 1 })
        } else {
            None
        },
        None => None,
    }
}

/// The nearest cell of another material than the cell at `idx`, looking
/// along its row on the chosen side from `distance` cells away to `reach`
/// cells away. The look ends at the grid's edge.
pub open spec fn probe(
    width: usize,
    height: usize,
    cells: Seq<Particle>,
    idx: usize,
    toward_left: bool,
    distance: usize,
    reach: usize,
) -> Option<Move>
    decreases reach - distance,
{
    if distance > reach {
        None
    } else {
        match neighbour(width, height, idx, offset(toward_left, distance as int), 0) {
            Some(j) => if cells[j as int].material != cells[idx as int].material {
                Some(Move { target: j, distance })
            } else if distance < reach {
                probe(width, height, cells, idx, toward_left, (distance + 1) as usize, reach)
            } else {
                None
            },
            None => None,
        }
    }
}

/// Viscous drag: a cell of viscosity above 2 looks along its row as far as
/// its viscosity reaches; the nearest cell of another material is the
/// target if its viscosity is above 4.
pub open spec fn drag_move(
    width: usize,
    height: usize,
    cells: Seq<Particle>,
    idx: usize,
    toward_left: bool,
) -> Option<Move> {
    if cells[idx as int].viscosity > 2 {
        match probe(width, height, cells, idx, toward_left, 1, cells[idx as int].viscosity) {
            Some(found) => if cells[found.target as int].viscosity > 4 {
                Some(found)
            } else {
                None
            },
            None => None,
        }
    } else {
        None
    }
}

/// Viscous exchange: this cell and the one beside it both have a viscosity
/// above 1 and differ in material.
pub open spec fn push_move(
    width: usize,
    height: usize,
    cells: Seq<Particle>,
    idx: usize,
    toward_left: bool,
) -> Option<Move> {
    match neighbour(width, height, idx, offset(toward_left, 1), 0) {
        Some(side) => if cells[idx as int].viscosity > 1 && cells[side as int].viscosity > 1
            && cells[side as int].material != cells[idx as int].material {
            Some(Move { target: side, distance: 1 })
        } else {
            None
        },
        None => None,
    }
}

/// Spilling: this cell is denser than the one beside it and than the one
/// diagonally below on that side.
pub open spec fn spill_move(
    width: usize,
    height: usize,
    cells: Seq<Particle>,
    idx: usize,
    toward_left: bool,
) -> Option<Move> {
    match (
        neighbour(width, height, idx, offset(toward_left, 1), 0),
        neighbour(width, height, idx, offset(toward_left, 1), 1),
    ) {
        (Some(side), Some(diagonal)) => if cells[idx as int].density > cells[side as int].density
            && cells[idx as int].density > cells[diagonal as int].density {
            Some(Move { target: side, distance: 1 })
        } else {
            None
        },
        _ => None,
    }
}

/// Giving way: this cell and the one above it are both denser than the
/// one beside this cell.
pub open spec fn yield_move(
    width: usize,
    height: usize,
    cells: Seq<Particle>,
    idx: usize,
    toward_left: bool,
) -> Option<Move> {
    match (
        neighbour(width, height, idx, 0, -1),
        neighbour(width, height, idx, offset(toward_left, 1), 0),
    ) {
        (Some(above), Some(side)) => if cells[above as int].density > cells[side as int].density
            && cells[idx as int].density > cells[side as int].density {
            Some(Move { target: side, distance: 1 })
        } else {
            None
        },
        _ => None,
    }
}

/// The move is called for and the budget admits it.
pub open spec fn takes(pass: Pass, idx: usize, proposed: Option<Move>) -> bool {
    match proposed {
        Some(m) => swap_allowed(pass, idx, m.target, m.distance),
        None => false,
    }
}

/// The pass after the move was made.
pub open spec fn made(pass: Pass, idx: usize, proposed: Option<Move>) -> Pass {
    match proposed {
        Some(m) => swapped(pass, idx, m.target, m.distance),
        None => pass,
    }
}

/// The move that the cell at `idx` makes when it is visited and neither
/// burns nor catches fire: the first, in this order, of sinking, rising,
/// viscous drag, viscous exchange, spilling and giving way that is called
/// for and that the budget admits.
pub open spec fn chosen_move(
    width: usize,
    height: usize,
    pass: Pass,
    idx: usize,
    toward_left: bool,
) -> Option<Move> {
    let sink = sink_move(width, height, pass.cells, idx);
    let rise = rise_move(width, height, pass.cells, idx);
    let drag = drag_move(width, height, pass.cells, idx, toward_left);
    let push = push_move(width, height, pass.cells, idx, toward_left);
    let spill = spill_move(width, height, pass.cells, idx, toward_left);
    let give = yield_move(width, height, pass.cells, idx, toward_left);
    if takes(pass, idx, sink) {
        sink
    } else if takes(pass, idx, rise) {
        rise
    } else if takes(pass, idx, drag) {
        drag
    } else if takes(pass, idx, push) {
        push
    } else if takes(pass, idx, spill) {
        spill
    } else if takes(pass, idx, give) {
        give
    } else {
        None
    }
}

/// The pass after the cell at `idx`, which neither burns nor catches fire,
/// was visited.
pub open spec fn settle(width: usize, height: usize, pass: Pass, idx: usize, toward_left: bool) -> Pass {
    made(pass, idx, chosen_move(width, height, pass, idx, toward_left))
}

/// The pass after the cell at `idx` was visited, the coin having chosen the
/// side `toward_left`.
pub open spec fn visit(width: usize, height: usize, pass: Pass, idx: usize, toward_left: bool) -> Pass {
    let me = pass.cells[idx as int];
    if me.material == Material::Fire {
        Pass { cells: burn(width, height, pass.cells, idx), moved: pass.moved }
    } else if me.energy > 0 && neighbour_on_fire(width, height, pass.cells, idx) {
        Pass { cells: pass.cells.update(idx as int, me.ignited()), moved: pass.moved }
    } else {
        settle(width, height, pass, idx, toward_left)
    }
}

/// The pass after the first `count` cells of `order` were visited, each with
/// its own coin flip.
pub open spec fn traverse(
    width: usize,
    height: usize,
    start: Pass,
    order: Seq<usize>,
    choices: Seq<bool>,
    count: nat,
) -> Pass
    decreases count,
{
    if count == 0 {
        start
    } else {
        visit(
            width,
            height,
            traverse(width, height, start, order, choices, (count - 1) as nat),
            order[count - 1],
            choices[count - 1],
        )
    }
}

/// Every particle is well-formed and the grid is full.
pub open spec fn cells_wf(width: usize, height: usize, cells: Seq<Particle>) -> bool {
    &&& cells.len() == width * height
    &&& cells.len() <= isize::MAX
    &&& forall|i: int| 0 <= i < cells.len() ==> (#[trigger] cells[i]).wf()
}

/// A cell's column and row are inside the grid and give back its index.
pub proof fn lemma_position(width: usize, height: usize, idx: usize)
    requires
        idx < width * height,
    ensures
        0 <= column(width, idx) < width,
        0 <= row(width, idx) < height,
        idx == row(width, idx) * width + column(width, idx),
        cell_index(width, height, column(width, idx), row(width, idx)) == Some(idx),
{
    let w = width as int;
    let i = idx as int;
    assert(w > 0) by (nonlinear_arith)
        requires
            0 <= i < w * (height as int),
            w >= 0,
    ;
    vstd::arithmetic::div_mod::lemma_fundamental_div_mod(i, w);
    vstd::arithmetic::div_mod::lemma_mod_bound(i, w);
    assert(i == w * (i / w) + i % w);
    assert(0 <= i / w < height) by (nonlinear_arith)
        requires
            i == w * (i / w) + i % w,
            0 <= i % w < w,
            0 <= i < w * (height as int),
    ;
    assert(w * (i / w) == (i / w) * w) by (nonlinear_arith);
}

/// The cell at column `x` and row `y` lies inside the grid, and its column
/// and row are `x` and `y`.
pub proof fn lemma_cell_index(width: usize, height: usize, x: int, y: int)
    requires
        0 <= x < width,
        0 <= y < height,
        width * height <= usize::MAX,
    ensures
        0 <= y * width + x < width * height,
        cell_index(width, height, x, y) == Some((y * width + x) as usize),
        column(width, (y * width + x) as usize) == x,
        row(width, (y * width + x) as usize) == y,
{
    let w = width as int;
    let h = height as int;
    assert(0 <= y * w + x < w * h) by (nonlinear_arith)
        requires
            0 <= x < w,
            0 <= y < h,
    ;
    vstd::arithmetic::div_mod::lemma_fundamental_div_mod_converse(y * w + x, w, y, x);
}

/// The sides of a grid that has a cell are no longer than its cell count.
pub proof fn lemma_sides(width: usize, height: usize)
    requires
        0 < width * height,
    ensures
        0 < width <= width * height,
        0 < height <= width * height,
{
    assert(0 < width <= width * height && 0 < height <= width * height) by (nonlinear_arith)
        requires
            0 < width * height,
            0 <= width,
            0 <= height,
    ;
}

/// A neighbour lies inside the grid at the offset that names it.
pub proof fn lemma_neighbour(width: usize, height: usize, idx: usize, dx: int, dy: int)
    requires
        idx < width * height,
        width * height <= usize::MAX,
    ensures
        match neighbour(width, height, idx, dx, dy) {
            Some(j) => {
                &&& j < width * height
                &&& j == idx + dy * width + dx
                &&& column(width, j) == column(width, idx) + dx
                &&& row(width, j) == row(width, idx) + dy
                &&& (j == idx <==> dx == 0 && dy == 0)
            },
            None => true,
        },
{
    lemma_position(width, height, idx);
    let x = column(width, idx) + dx;
    let y = row(width, idx) + dy;
    if 0 <= x < width && 0 <= y < height {
        lemma_cell_index(width, height, x, y);
        let w = width as int;
        let r = row(width, idx);
        assert((r + dy) * w == r * w + dy * w) by (nonlinear_arith);
    }
}

} // verus!
