//! What a simulation is, as a mathematical value, and what a tick makes of it.

use vstd::prelude::*;
use crate::material::Material;
use crate::particle::Particle;
use crate::rules::cells_wf;
use crate::rules::traverse;
use crate::rules::Pass;
use crate::source::Source;

verus! {

/// What a click on the grid places.
#[derive(Clone, Copy, Debug, PartialEq, Eq, Structural)]
pub enum InsertMode {
    Material,
    Source,
}

/// The state of a simulation.
pub struct World {
    pub width: usize,
    pub height: usize,
    /// The particles, row after row from the top.
    pub cells: Seq<Particle>,
    /// The order in which a tick visits the cells.
    pub order: Seq<usize>,
    /// The emitters, by the index of their cell.
    pub sources: Map<usize, Source>,
    /// The material selected for insertion.
    pub material: Material,
    pub insert_mode: InsertMode,
    /// The rate given to a newly placed emitter.
    pub insert_rate: usize,
    pub paused: bool,
    /// Whether cells are shown in the catalog's colours or in their own.
    pub show_materials: bool,
}

/// `order` holds each of the indices below `count` exactly once.
pub open spec fn is_permutation(order: Seq<usize>, count: nat) -> bool {
    &&& order.len() == count
    &&& forall|i: int| 0 <= i < order.len() ==> #[trigger] order[i] < count
    &&& order.no_duplicates()
}

/// The cells after the emitters that were due put their material in place.
pub open spec fn emitted(cells: Seq<Particle>, sources: Map<usize, Source>) -> Seq<Particle> {
    Seq::new(
        cells.len(),
        |i: int|
            if sources.contains_key(i as usize) && sources[i as usize].spec_fires() {
                cells[i].with_material(sources[i as usize].material)
            } else {
                cells[i]
            },
    )
}

/// Every emitter one tick later.
pub open spec fn advanced(sources: Map<usize, Source>) -> Map<usize, Source> {
    Map::new(|k: usize| sources.contains_key(k), |k: usize| sources[k].spec_advanced())
}

/// The material selected for insertion when a simulation is created.
pub const INITIAL_MATERIAL: Material = Material::Rock;

/// The rate of emitters placed before another rate was chosen.
pub const INITIAL_INSERT_RATE: usize = 5;

/// The rate that stands against the digit 0: `set_insert_rate` takes a digit
/// up to it, and a higher digit means a shorter wait.
pub const RATE_LIMIT: usize = 10;

impl World {
    /// The world that a newly created simulation of these cells stands for:
    /// no emitters, `Rock` selected for insertion, running, and shown in the
    /// catalog's colours.
    pub open spec fn created(width: usize, height: usize, cells: Seq<Particle>, order: Seq<usize>) -> World {
        World {
            width,
            height,
            cells,
            order,
            sources: Map::empty(),
            material: INITIAL_MATERIAL,
            insert_mode: InsertMode::Material,
            insert_rate: INITIAL_INSERT_RATE,
            paused: false,
            show_materials: true,
        }
    }

    /// The grid is full of well-formed particles, the traversal order is a
    /// permutation of its indices, and every emitter is bound to a cell.
    pub open spec fn wf(self) -> bool {
        &&& cells_wf(self.width, self.height, self.cells)
        &&& is_permutation(self.order, self.cells.len())
        &&& forall|k: usize| self.sources.contains_key(k) ==> k < self.cells.len()
    }

    /// The start of a tick: the cells as they are, and nothing moved yet.
    pub open spec fn start(self) -> Pass {
        Pass { cells: self.cells, moved: Map::empty() }
    }

    /// The cells after a tick visited every cell in order, each with its own
    /// coin flip.
    pub open spec fn traversed(self, choices: Seq<bool>) -> Seq<Particle> {
        traverse(self.width, self.height, self.start(), self.order, choices, self.order.len()).cells
    }

    /// The world one tick later, whatever `paused` says: every cell is visited,
    /// then every emitter is processed.
    pub open spec fn ticked(self, choices: Seq<bool>) -> World {
        World {
            cells: emitted(self.traversed(choices), self.sources),
            sources: advanced(self.sources),
            ..self
        }
    }

    /// The world after one tick for each of `rounds`, which holds the coin
    /// flips of each tick in turn.
    pub open spec fn ticked_through(self, rounds: Seq<Seq<bool>>) -> World
        decreases rounds.len(),
    {
        if rounds.len() == 0 {
            self
        } else {
            self.ticked_through(rounds.drop_last()).ticked(rounds.last())
        }
    }
}

/// A traversal order visits every cell: each index below `count` stands
/// somewhere in a permutation of them.
pub proof fn lemma_permutation_covers(order: Seq<usize>, count: nat, v: usize)
    requires
        is_permutation(order, count),
        v < count,
    ensures
        order.contains(v),
{
    let t = order.map_values(|x: usize| x as int);
    assert(t.no_duplicates()) by {
        assert forall|i: int, j: int| 0 <= i < t.len() && 0 <= j < t.len() && i != j implies t[i]
            != t[j] by {
            assert(order[i] != order[j]);
        }
    }
    t.unique_seq_to_set();
    vstd::set_lib::lemma_int_range(0, count as int);
    let all = vstd::set_lib::set_int_range(0, count as int);
    assert(t.to_set().subset_of(all)) by {
        assert forall|x: int| t.to_set().contains(x) implies all.contains(x) by {
            let i = choose|i: int| 0 <= i < t.len() && t[i] == x;
            assert(order[i] < count);
        }
    }
    vstd::seq_lib::seq_to_set_is_finite(t);
    vstd::set_lib::lemma_subset_equality(t.to_set(), all);
    assert(all.contains(v as int));
    assert(t.to_set().contains(v as int));
    let i = choose|i: int| 0 <= i < t.len() && t[i] == v as int;
    assert(order[i] == v);
}

} // verus!
