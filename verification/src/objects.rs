//! Kinds of static level objects and how each is routed into the level
//! snapshot: lethal kinds join the deadly set, projectiles move each tick,
//! everything else is collidable solid geometry.

use vstd::prelude::*;

verus! {

/// The kind tag carried by every static level object.
#[derive(Clone, Copy, Debug, Hash, PartialEq, Eq, Structural)]
pub enum ObjectType {
    Wall,
    Spike,
    Portal,
    Ouch,
    SpikeOuch,
    Warp,
    Projectile,
}

impl ObjectType {
    /// Contact with an object of this kind kills the player.
    pub open spec fn is_deadly_spec(self) -> bool {
        self == ObjectType::Ouch || self == ObjectType::SpikeOuch || self == ObjectType::Portal
            || self == ObjectType::Warp
    }

    pub fn is_deadly(&self) -> (r: bool)
        ensures
            r == self.is_deadly_spec(),
    {
        matches!(*self, ObjectType::Ouch | ObjectType::SpikeOuch | ObjectType::Portal | ObjectType::Warp)
    }

    /// The object moves with a per-tick velocity.
    pub open spec fn is_projectile_spec(self) -> bool {
        self == ObjectType::Projectile
    }

    pub fn is_projectile(&self) -> (r: bool)
        ensures
            r == self.is_projectile_spec(),
    {
        matches!(*self, ObjectType::Projectile)
    }
}

} // verus!
