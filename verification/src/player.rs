//! The player's kinematic record: position, velocity, speed constants,
//! stamina and status flags, all in exact fixed-point integers.

use vstd::prelude::*;
use crate::geometry::{abs, Hitbox, COORD_LIMIT, VEL_LIMIT};

verus! {

/// Largest base speed constant, in tenths of a unit per second.
pub const BASE_SPEED_LIMIT: i64 = 10_000_000;

/// Largest sprint speed multiplier, in tenths (10 is a 1.0 multiplier).
pub const MULTIPLIER_LIMIT: i64 = 1000;

/// Largest player hitbox edge length, in position steps.
pub const SIZE_LIMIT: i64 = 1_000_000_000;

/// Stamina is counted in half-points: 200 half-points is the cap of 100.
pub const STAMINA_MAX: i64 = 200;

/// The per-tick kinematic state of the player character.
///
/// `x`/`y` are the bottom-left corner of the player's hitbox in position
/// steps (1/600 unit); `vx`/`vy` are in velocity steps (0.1 unit/s), so
/// one tick advances `x` by exactly `vx` position steps.  `stamina` is in
/// half-points, `speed_multiplier` in tenths.
#[derive(Clone, Copy, Debug, PartialEq, Eq, Structural)]
pub struct PlayerState {
    pub x: i64,
    pub y: i64,
    pub vx: i64,
    pub vy: i64,
    /// Base horizontal speed set by a left/right key, in velocity steps.
    pub base_vx: i64,
    /// Base jump (platformer) or vertical (scroller) speed, in velocity
    /// steps.
    pub base_vy: i64,
    /// Sprint multiplier applied to horizontal speed, in tenths.
    pub speed_multiplier: i64,
    /// Sprint stamina in half-points, always within `[0, STAMINA_MAX]`.
    pub stamina: i64,
    /// Hitbox width in position steps.
    pub width: i64,
    /// Hitbox height in position steps.
    pub height: i64,
    /// The player sprinted this tick.
    pub running: bool,
    pub in_the_air: bool,
    pub can_jump: bool,
    pub dead: bool,
    /// Permits jumping even when airborne.
    pub jump_override: bool,
}

impl PlayerState {
    /// Bounds that every state handed to the transition function must
    /// meet and that every surviving (non-dead) successor meets again.
    pub open spec fn wf(self) -> bool {
        &&& abs(self.x as int) <= COORD_LIMIT
        &&& abs(self.y as int) <= COORD_LIMIT
        &&& abs(self.vx as int) <= VEL_LIMIT
        &&& abs(self.vy as int) <= VEL_LIMIT
        &&& 0 <= self.base_vx <= BASE_SPEED_LIMIT
        &&& 0 <= self.base_vy <= BASE_SPEED_LIMIT
        &&& 0 <= self.speed_multiplier <= MULTIPLIER_LIMIT
        &&& 0 <= self.stamina <= STAMINA_MAX
        &&& 1 <= self.width <= SIZE_LIMIT
        &&& 1 <= self.height <= SIZE_LIMIT
    }

    /// Looser bounds that hold at every point inside one tick: position
    /// may overshoot the world bound by a velocity and an alignment snap
    /// before the end-of-tick check marks the state dead.
    pub open spec fn wf_mid(self) -> bool {
        &&& abs(self.x as int) <= 2 * COORD_LIMIT
        &&& abs(self.y as int) <= 2 * COORD_LIMIT
        &&& abs(self.vx as int) <= VEL_LIMIT + 2
        &&& abs(self.vy as int) <= VEL_LIMIT + 2
        &&& 0 <= self.base_vx <= BASE_SPEED_LIMIT
        &&& 0 <= self.base_vy <= BASE_SPEED_LIMIT
        &&& 0 <= self.speed_multiplier <= MULTIPLIER_LIMIT
        &&& 0 <= self.stamina <= STAMINA_MAX
        &&& 1 <= self.width <= SIZE_LIMIT
        &&& 1 <= self.height <= SIZE_LIMIT
    }

    /// The player's hitbox: its bottom-left corner is the position.
    pub open spec fn hitbox_spec(self) -> Hitbox {
        Hitbox {
            x1: self.x,
            y1: self.y,
            x2: (self.x + self.width) as i64,
            y2: (self.y + self.height) as i64,
        }
    }

    pub fn get_hitbox(&self) -> (r: Hitbox)
        requires
            abs(self.x as int) <= 3 * COORD_LIMIT,
            abs(self.y as int) <= 3 * COORD_LIMIT,
            1 <= self.width <= SIZE_LIMIT,
            1 <= self.height <= SIZE_LIMIT,
        ensures
            r == self.hitbox_spec(),
    {
        Hitbox { x1: self.x, y1: self.y, x2: self.x + self.width, y2: self.y + self.height }
    }

    /// The state translated by `(dx, dy)` position steps.
    pub open spec fn moved_by_spec(self, dx: int, dy: int) -> PlayerState {
        PlayerState { x: (self.x + dx) as i64, y: (self.y + dy) as i64, ..self }
    }

    pub fn move_by(&mut self, dx: i64, dy: i64)
        requires
            abs(old(self).x as int) <= 8 * COORD_LIMIT,
            abs(old(self).y as int) <= 8 * COORD_LIMIT,
            abs(dx as int) <= 8 * COORD_LIMIT,
            abs(dy as int) <= 8 * COORD_LIMIT,
        ensures
            *final(self) == old(self).moved_by_spec(dx as int, dy as int),
    {
        self.x = self.x + dx;
        self.y = self.y + dy;
    }

    /// One tick of motion: velocity steps convert one-for-one into
    /// position steps (0.1 unit/s over 1/60 s is exactly 1/600 unit).
    pub open spec fn update_position_spec(self) -> PlayerState {
        PlayerState { x: (self.x + self.vx) as i64, y: (self.y + self.vy) as i64, ..self }
    }

    pub fn update_position(&mut self)
        requires
            abs(old(self).x as int) <= 2 * COORD_LIMIT,
            abs(old(self).y as int) <= 2 * COORD_LIMIT,
            abs(old(self).vx as int) <= VEL_LIMIT + 2,
            abs(old(self).vy as int) <= VEL_LIMIT + 2,
        ensures
            *final(self) == old(self).update_position_spec(),
    {
        self.x = self.x + self.vx;
        self.y = self.y + self.vy;
    }
}

} // verus!
