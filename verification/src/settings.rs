//! Immutable configuration: the game mode, the per-state physics settings
//! snapshot, and the search engine's settings.

use vstd::prelude::*;
use crate::moves::Move;

verus! {

/// Which per-tick movement rules apply.
#[derive(Clone, Copy, Debug, Hash, PartialEq, Eq, Structural)]
pub enum GameMode {
    Platformer,
    Scroller,
}

/// The physics settings snapshot embedded in every search-graph node.
#[derive(Clone, Copy, Debug, PartialEq, Eq, Structural)]
pub struct PhysicsSettings {
    pub mode: GameMode,
    /// Quantize positions (and, in platformer mode, vertical velocity)
    /// when deciding whether two states are the same search node.
    pub simple_geometry: bool,
}

/// Configuration consumed by the search engine.
#[derive(Clone, Debug)]
pub struct SearchSettings {
    pub mode: GameMode,
    /// Heuristic weight in thousandths: 1000 is weight 1.0, the largest
    /// weight that keeps the tick estimate a lower bound.
    pub heuristic_weight_milli: i64,
    /// Wall-clock budget in seconds; exceeding it is a normal "not found".
    pub timeout_secs: u64,
    /// How many frontier nodes one parallel expansion batch drains.
    pub state_batch_size: usize,
    /// Explicit override of the candidate move set; empty means all moves
    /// of the game mode.
    pub allowed_moves: Vec<Move>,
    /// Expand only shift-held successors.
    pub always_shift: bool,
    /// Expand only shift-free successors; mutually exclusive with
    /// `always_shift`.
    pub disable_shift: bool,
    pub simple_geometry: bool,
}

impl SearchSettings {
    /// Well-formed engine configuration.
    pub open spec fn wf(self) -> bool {
        &&& 0 < self.heuristic_weight_milli <= 100_000
        &&& 1 <= self.state_batch_size
        &&& !(self.always_shift && self.disable_shift)
    }

    /// The physics settings snapshot this configuration induces.
    pub open spec fn phys_spec(self) -> PhysicsSettings {
        PhysicsSettings { mode: self.mode, simple_geometry: self.simple_geometry }
    }

    pub fn phys(&self) -> (r: PhysicsSettings)
        ensures
            r == self.phys_spec(),
    {
        PhysicsSettings { mode: self.mode, simple_geometry: self.simple_geometry }
    }
}

} // verus!
