//! Emitters that put a material into their cell again and again.

use vstd::prelude::*;
use crate::material::Material;

verus! {

/// An emitter bound to one cell of the grid.
#[derive(Clone, Copy, Debug, PartialEq, Eq, Structural)]
pub struct Source {
    /// What the emitter puts into its cell.
    pub material: Material,
    /// The number of ticks from one emission to the next.
    pub rate: usize,
    /// The countdown to the next emission; a new emitter starts at 0.
    pub last_inserted: usize,
}

impl Source {
    /// A newly placed emitter: it fires when it is next processed.
    pub open spec fn placed(material: Material, rate: usize) -> Source {
        Source { material, rate, last_inserted: 0 }
    }

    /// The emitter fires in the tick that processes it in this state.
    pub open spec fn spec_fires(&self) -> bool {
        self.last_inserted <= 1
    }

    /// The emitter after one tick: the countdown starts again at `rate`
    /// when it fired, and is one shorter when it did not.
    pub open spec fn spec_advanced(self) -> Source {
        if self.spec_fires() {
            Source { last_inserted: self.rate, ..self }
        } else {
            Source { last_inserted: (self.last_inserted - 1) as usize, ..self }
        }
    }

    /// The emitter after `ticks` ticks.
    pub open spec fn after(self, ticks: nat) -> Source
        decreases ticks,
    {
        if ticks == 0 {
            self
        } else {
            self.after((ticks - 1) as nat).spec_advanced()
        }
    }

    pub fn new(material: Material, rate: usize) -> (source: Source)
        ensures
            source == Source::placed(material, rate),
    {
        Source { material, rate, last_inserted: 0 }
    }

    #[verifier::when_used_as_spec(spec_fires)]
    pub fn fires(&self) -> (due: bool)
        ensures
            due == self.spec_fires(),
    {
        self.last_inserted <= 1
    }

    /// Moves the emitter one tick on and tells whether it fired.
    pub fn advance(&mut self) -> (fired: bool)
        ensures
            fired == old(self).spec_fires(),
            *final(self) == old(self).spec_advanced(),
    {
        if self.last_inserted <= 1 {
            self.last_inserted = self.rate;
            true
        } else {
            self.last_inserted -= 1;
            false
        }
    }
}

} // verus!
