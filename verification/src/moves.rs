//! The closed set of per-tick input combinations and their predicates.

use vstd::prelude::*;
use crate::settings::{GameMode, SearchSettings};

verus! {

/// One tick's direction-key combination: none, a single key, or a
/// vertical+horizontal composite.
#[derive(Clone, Copy, Debug, Hash, PartialEq, Eq, Structural)]
pub enum Move {
    NONE,
    A,
    D,
    W,
    WA,
    WD,
    S,
    SA,
    SD,
}

/// A compass direction used internally by the transition function.
#[derive(Clone, Copy, Debug, Hash, PartialEq, Eq, Structural)]
pub enum Direction {
    N,
    S,
    E,
    W,
}

/// The moves a scroller-mode search may try, in expansion order.
pub open spec fn scroller_moves() -> Seq<Move> {
    seq![Move::NONE, Move::A, Move::D, Move::W, Move::WA, Move::WD, Move::S, Move::SA, Move::SD]
}

/// The moves a platformer-mode search may try, in expansion order.
pub open spec fn platformer_moves() -> Seq<Move> {
    seq![Move::NONE, Move::A, Move::D, Move::W, Move::WA, Move::WD]
}

/// The candidate move set of a configuration: the explicit override when
/// one is given, else all moves of the game mode.
pub open spec fn allowed_moves_spec(settings: SearchSettings) -> Seq<Move> {
    if settings.allowed_moves@.len() > 0 {
        settings.allowed_moves@
    } else if settings.mode == GameMode::Scroller {
        scroller_moves()
    } else {
        platformer_moves()
    }
}

impl Move {
    /// The candidate moves for one expansion: the explicit override from
    /// the settings when one is given, else all moves of the game mode.
    pub fn all(settings: &SearchSettings) -> (r: Vec<Move>)
        ensures
            r@ == allowed_moves_spec(*settings),
    {
        if settings.allowed_moves.len() > 0 {
            let mut out: Vec<Move> = Vec::new();
            let mut i: usize = 0;
            while i < settings.allowed_moves.len()
                invariant
                    i <= settings.allowed_moves@.len(),
                    out@ == settings.allowed_moves@.subrange(0, i as int),
                decreases settings.allowed_moves@.len() - i,
            {
                out.push(settings.allowed_moves[i]);
                i = i + 1;
            }
            proof {
                assert(out@ == settings.allowed_moves@);
            }
            return out;
        }
        let mut out: Vec<Move> = Vec::new();
        out.push(Move::NONE);
        out.push(Move::A);
        out.push(Move::D);
        out.push(Move::W);
        out.push(Move::WA);
        out.push(Move::WD);
        match settings.mode {
            GameMode::Platformer => {
                proof {
                    assert(out@ =~= platformer_moves());
                }
            },
            GameMode::Scroller => {
                out.push(Move::S);
                out.push(Move::SA);
                out.push(Move::SD);
                proof {
                    assert(out@ =~= scroller_moves());
                }
            },
        }
        out
    }

    pub open spec fn is_only_vertical_spec(self) -> bool {
        self == Move::S || self == Move::W
    }

    /// The move presses exactly one vertical key and nothing else.
    pub fn is_only_vertical(&self) -> (r: bool)
        ensures
            r == self.is_only_vertical_spec(),
    {
        matches!(*self, Move::S | Move::W)
    }

    pub open spec fn is_left_spec(self) -> bool {
        self == Move::A || self == Move::WA || self == Move::SA
    }

    /// The move has a leftward horizontal component.
    pub fn is_left(&self) -> (r: bool)
        ensures
            r == self.is_left_spec(),
    {
        matches!(*self, Move::A | Move::WA | Move::SA)
    }

    pub open spec fn is_right_spec(self) -> bool {
        self == Move::D || self == Move::WD || self == Move::SD
    }

    /// The move has a rightward horizontal component.
    pub fn is_right(&self) -> (r: bool)
        ensures
            r == self.is_right_spec(),
    {
        matches!(*self, Move::D | Move::WD | Move::SD)
    }

    pub open spec fn is_up_spec(self) -> bool {
        self == Move::W || self == Move::WA || self == Move::WD
    }

    /// The move has an upward vertical component (a step-up).
    pub fn is_up(&self) -> (r: bool)
        ensures
            r == self.is_up_spec(),
    {
        matches!(*self, Move::W | Move::WA | Move::WD)
    }

    pub open spec fn is_down_spec(self) -> bool {
        self == Move::S || self == Move::SA || self == Move::SD
    }

    /// The move has a downward vertical component.
    pub fn is_down(&self) -> (r: bool)
        ensures
            r == self.is_down_spec(),
    {
        matches!(*self, Move::S | Move::SA | Move::SD)
    }
}

} // verus!
