//! Environment modifiers: regions that override physics constants.
//! Detection is an explicit extension point that currently reports no
//! active modifier, so these records only travel through the level
//! snapshot.

use vstd::prelude::*;
use crate::geometry::Hitbox;

verus! {

/// A region (hitbox) with override physics constants, in the same
/// fixed-point scales as the player's own constants.
#[derive(Clone, Copy, Debug, PartialEq, Eq, Structural)]
pub struct EnvModifier {
    pub hitbox: Hitbox,
    pub jump_speed: i64,
    pub jump_height: i64,
    pub walk_speed: i64,
    pub run_speed: i64,
    pub gravity: i64,
    pub jump_override: bool,
}

impl EnvModifier {
    pub fn new(
        hitbox: Hitbox,
        jump_speed: i64,
        jump_height: i64,
        walk_speed: i64,
        run_speed: i64,
        gravity: i64,
        jump_override: bool,
    ) -> (r: EnvModifier)
        ensures
            r == (EnvModifier {
                hitbox,
                jump_speed,
                jump_height,
                walk_speed,
                run_speed,
                gravity,
                jump_override,
            }),
    {
        EnvModifier { hitbox, jump_speed, jump_height, walk_speed, run_speed, gravity, jump_override }
    }
}

} // verus!
