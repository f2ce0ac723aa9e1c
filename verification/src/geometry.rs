//! Axis-aligned rectangle geometry: overlap tests and minimum penetration
//! vectors, in fixed-point coordinates (see `rounding` for the scales).

use vstd::prelude::*;

verus! {

/// Largest coordinate magnitude of a live (non-dead) player position and of
/// any static hitbox edge; keeps every intermediate sum well inside `i64`.
pub const COORD_LIMIT: i64 = 1_000_000_000_000;

/// Largest velocity magnitude (in tenths of a unit per second) of a live
/// player.
pub const VEL_LIMIT: i64 = 1_000_000_000;

/// A 2D vector or point in fixed-point position steps.
#[derive(Clone, Copy, Debug, PartialEq, Eq, Structural)]
pub struct Pointf {
    pub x: i64,
    pub y: i64,
}

/// An axis-aligned rectangle: `x1 < x2` is left/right, `y1 < y2` bottom/top.
#[derive(Clone, Copy, Debug, PartialEq, Eq, Structural)]
pub struct Hitbox {
    pub x1: i64,
    pub y1: i64,
    pub x2: i64,
    pub y2: i64,
}

pub open spec fn abs(x: int) -> int {
    if x >= 0 {
        x
    } else {
        -x
    }
}

impl Hitbox {
    /// A nonempty rectangle whose edges stay within the world bound.
    pub open spec fn wf(self) -> bool {
        &&& self.x1 < self.x2
        &&& self.y1 < self.y2
        &&& -COORD_LIMIT <= self.x1
        &&& self.x2 <= COORD_LIMIT
        &&& -COORD_LIMIT <= self.y1
        &&& self.y2 <= COORD_LIMIT
    }

    /// Edges within four times the world bound: the loosest shape any
    /// mid-tick player hitbox can take.
    pub open spec fn bounded(self) -> bool {
        &&& abs(self.x1 as int) <= 4 * COORD_LIMIT
        &&& abs(self.x2 as int) <= 4 * COORD_LIMIT
        &&& abs(self.y1 as int) <= 4 * COORD_LIMIT
        &&& abs(self.y2 as int) <= 4 * COORD_LIMIT
    }

    /// Two rectangles overlap on a region of positive area (touching edges
    /// do not collide).
    pub open spec fn collides_spec(self, other: Hitbox) -> bool {
        &&& self.x1 < other.x2
        &&& other.x1 < self.x2
        &&& self.y1 < other.y2
        &&& other.y1 < self.y2
    }

    pub fn collides(&self, other: &Hitbox) -> (r: bool)
        ensures
            r == self.collides_spec(*other),
    {
        self.x1 < other.x2 && other.x1 < self.x2 && self.y1 < other.y2 && other.y1 < self.y2
    }

    /// Minimum penetration vector: the smallest displacement of `target`
    /// that separates it from `self`, along the axis of least penetration
    /// (ties prefer the vertical axis).  One component is always zero.
    pub open spec fn mpv_spec(self, target: Hitbox) -> Pointf {
        let push_e = self.x2 - target.x1;
        let push_w = self.x1 - target.x2;
        let dx = if push_e <= target.x2 - self.x1 {
            push_e
        } else {
            push_w
        };
        let push_n = self.y2 - target.y1;
        let push_s = self.y1 - target.y2;
        let dy = if push_n <= target.y2 - self.y1 {
            push_n
        } else {
            push_s
        };
        if abs(dy as int) <= abs(dx as int) {
            Pointf { x: 0, y: dy as i64 }
        } else {
            Pointf { x: dx as i64, y: 0 }
        }
    }

    pub fn get_mpv(&self, target: &Hitbox) -> (r: Pointf)
        requires
            self.bounded(),
            target.bounded(),
        ensures
            r == self.mpv_spec(*target),
            abs(r.x as int) <= 8 * COORD_LIMIT,
            abs(r.y as int) <= 8 * COORD_LIMIT,
    {
        let push_e = self.x2 - target.x1;
        let push_w = self.x1 - target.x2;
        let dx = if push_e <= target.x2 - self.x1 {
            push_e
        } else {
            push_w
        };
        let push_n = self.y2 - target.y1;
        let push_s = self.y1 - target.y2;
        let dy = if push_n <= target.y2 - self.y1 {
            push_n
        } else {
            push_s
        };
        let ax = if dx >= 0 {
            dx
        } else {
            -dx
        };
        let ay = if dy >= 0 {
            dy
        } else {
            -dy
        };
        if ay <= ax {
            Pointf { x: 0, y: dy }
        } else {
            Pointf { x: dx, y: 0 }
        }
    }

    pub fn get_leftmost_point(&self) -> (r: i64)
        ensures
            r == self.x1,
    {
        self.x1
    }

    pub fn get_rightmost_point(&self) -> (r: i64)
        ensures
            r == self.x2,
    {
        self.x2
    }

    pub fn get_highest_point(&self) -> (r: i64)
        ensures
            r == self.y2,
    {
        self.y2
    }

    pub fn get_lowest_point(&self) -> (r: i64)
        ensures
            r == self.y1,
    {
        self.y1
    }

    /// The rectangle translated by `(dx, dy)`.
    pub open spec fn offset_spec(self, dx: int, dy: int) -> Hitbox {
        Hitbox {
            x1: (self.x1 + dx) as i64,
            y1: (self.y1 + dy) as i64,
            x2: (self.x2 + dx) as i64,
            y2: (self.y2 + dy) as i64,
        }
    }

    pub fn offset(&self, dx: i64, dy: i64) -> (r: Hitbox)
        requires
            self.bounded(),
            abs(dx as int) <= 4 * COORD_LIMIT,
            abs(dy as int) <= 4 * COORD_LIMIT,
        ensures
            r == self.offset_spec(dx as int, dy as int),
    {
        Hitbox { x1: self.x1 + dx, y1: self.y1 + dy, x2: self.x2 + dx, y2: self.y2 + dy }
    }
}

} // verus!
