//! The per-tick transition function over a search-graph node, and the
//! equivalence relation that collapses kinematically indistinguishable
//! nodes.
//!
//! Every executable step is proved equal to its specification mirror, so
//! `tick_spec` is the exact mathematical definition of one simulation
//! tick and the search engine's route guarantee is stated over it.

use vstd::prelude::*;
use crate::geometry::{abs, Hitbox, Pointf, COORD_LIMIT, VEL_LIMIT};
use crate::moves::{Direction, Move};
use crate::player::{PlayerState, SIZE_LIMIT, STAMINA_MAX};
use crate::rounding::{round, round_mult, ROUND_LIMIT};
use crate::settings::{GameMode, PhysicsSettings, SearchSettings};
use crate::objects::ObjectType;
use crate::static_state::StaticState;

verus! {

/// Base jump speed, in velocity steps (320 units/s).
pub const PLAYER_JUMP_SPEED: i64 = 3200;

/// Base horizontal movement speed, in velocity steps (160 units/s).
pub const PLAYER_MOVEMENT_SPEED: i64 = 1600;

/// Gravity, in velocity steps per tick (0.1 unit/s each tick).
pub const GRAVITY_STEP: i64 = 1;

/// One detected overlap: the solid's hitbox and the minimum penetration
/// vector that pushes the player out of it.
#[derive(Clone, Copy, Debug, PartialEq, Eq, Structural)]
pub struct Collision {
    pub hitbox: Hitbox,
    pub mpv: Pointf,
}

/// A penetration component that rounds to zero at two decimal digits:
/// grazing contact, never corrected.
pub open spec fn grazes(v: int) -> bool {
    round_mult(v, 6) == 0
}

/// The horizontal-resolving collisions of the player hitbox against the
/// first `n` solids: overlaps whose penetration is vertical-free (the
/// vertical component rounds to zero at two digits) but not grazing.
pub open spec fn cls_x_prefix(objects: Seq<(Hitbox, ObjectType)>, pbox: Hitbox, n: int) -> Seq<
    Collision,
>
    decreases n,
{
    if n <= 0 {
        Seq::empty()
    } else {
        let rest = cls_x_prefix(objects, pbox, n - 1);
        let o = objects[n - 1].0;
        if o.collides_spec(pbox) {
            let mpv = o.mpv_spec(pbox);
            if grazes(mpv.x as int) {
                rest
            } else if grazes(mpv.y as int) {
                rest.push(Collision { hitbox: o, mpv })
            } else {
                rest
            }
        } else {
            rest
        }
    }
}

/// The vertical-resolving collisions of the player hitbox against the
/// first `n` solids: overlaps whose horizontal penetration component
/// rounds to zero at two digits.
pub open spec fn cls_y_prefix(objects: Seq<(Hitbox, ObjectType)>, pbox: Hitbox, n: int) -> Seq<
    Collision,
>
    decreases n,
{
    if n <= 0 {
        Seq::empty()
    } else {
        let rest = cls_y_prefix(objects, pbox, n - 1);
        let o = objects[n - 1].0;
        if o.collides_spec(pbox) {
            let mpv = o.mpv_spec(pbox);
            if grazes(mpv.x as int) {
                rest.push(Collision { hitbox: o, mpv })
            } else {
                rest
            }
        } else {
            rest
        }
    }
}

/// One horizontal correction: zero the horizontal velocity and snap the
/// player's leading edge flush to the obstacle on the side of
/// penetration; grazing contact is skipped.
pub open spec fn align_x_edge_spec(p: PlayerState, c: Collision) -> PlayerState {
    if grazes(c.mpv.x as int) {
        p
    } else {
        if c.mpv.x < 0 {
            PlayerState { vx: 0, x: (c.hitbox.x1 - p.width) as i64, ..p }
        } else {
            PlayerState { vx: 0, x: c.hitbox.x2, ..p }
        }
    }
}

/// One vertical correction: zero the vertical velocity and snap flush; a
/// correction from below also lands the player (clears the airborne
/// flag).  Grazing contact is skipped.
pub open spec fn align_y_edge_spec(p: PlayerState, c: Collision) -> PlayerState {
    if grazes(c.mpv.y as int) {
        p
    } else {
        if c.mpv.y > 0 {
            PlayerState { vy: 0, y: c.hitbox.y2, in_the_air: false, ..p }
        } else {
            PlayerState { vy: 0, y: (c.hitbox.y1 - p.height) as i64, ..p }
        }
    }
}

/// The first `n` horizontal corrections applied in collision-list order.
pub open spec fn fold_align_x(p: PlayerState, cs: Seq<Collision>, n: int) -> PlayerState
    decreases n,
{
    if n <= 0 {
        p
    } else {
        align_x_edge_spec(fold_align_x(p, cs, n - 1), cs[n - 1])
    }
}

/// The first `n` vertical corrections applied in collision-list order.
pub open spec fn fold_align_y(p: PlayerState, cs: Seq<Collision>, n: int) -> PlayerState
    decreases n,
{
    if n <= 0 {
        p
    } else {
        align_y_edge_spec(fold_align_y(p, cs, n - 1), cs[n - 1])
    }
}

/// The player hitbox touches some hitbox of the sequence.
pub open spec fn touches_any(boxes: Seq<Hitbox>, pbox: Hitbox) -> bool {
    exists|i: int| 0 <= i < boxes.len() && (#[trigger] boxes[i]).collides_spec(pbox)
}

/// One search-graph node: the player's kinematic record, the step-up
/// guard flag, the physics settings snapshot, and the (currently always
/// absent) active environment modifier.
#[derive(Clone, Copy, Debug, PartialEq, Eq, Structural)]
pub struct PhysState {
    pub player: PlayerState,
    /// The previous tick used an upward move; blocks an immediate repeat.
    pub was_step_up_before: bool,
    pub settings: PhysicsSettings,
    /// Index into the level's environment modifiers; detection is a stub
    /// that never reports one, so this stays `None`.
    pub active_modifier: Option<usize>,
}

impl PhysState {
    pub fn new(player: PlayerState, settings: PhysicsSettings) -> (r: PhysState)
        ensures
            r == (PhysState { player, settings, active_modifier: None, was_step_up_before: false }),
    {
        PhysState { player, settings, active_modifier: None, was_step_up_before: false }
    }

    /// Scroller mode always may jump; platformer mode probes one unit
    /// below the player and may jump only when some solid pushes back up.
    #[verifier::opaque]
    pub open spec fn reset_can_jump_spec(self, stat: StaticState) -> PhysState {
        if self.settings.mode == GameMode::Scroller {
            PhysState { player: PlayerState { can_jump: true, ..self.player }, ..self }
        } else {
            let probe = self.player.moved_by_spec(0, -600).hitbox_spec();
            let cy = cls_y_prefix(stat.objects@, probe, stat.objects@.len() as int);
            let grounded = exists|i: int| 0 <= i < cy.len() && (#[trigger] cy[i]).mpv.y > 0;
            PhysState { player: PlayerState { can_jump: grounded, ..self.player }, ..self }
        }
    }

    /// Set the velocity component a direction key requests: horizontal
    /// keys sprint (multiplier, stamina debit) when sprinting is in
    /// effect; up jumps only when grounded or overridden in platformer
    /// mode; down acts only in scroller mode.
    #[verifier::opaque]
    pub open spec fn change_direction_spec(
        self,
        stat: StaticState,
        direction: Direction,
        sprinting: bool,
    ) -> PhysState {
        let horizontal = direction == Direction::E || direction == Direction::W;
        let mult = if horizontal && sprinting {
            self.player.speed_multiplier as int
        } else {
            10
        };
        let s = if horizontal && sprinting {
            PhysState {
                player: PlayerState {
                    running: true,
                    stamina: if self.player.stamina >= 1 {
                        (self.player.stamina - 1) as i64
                    } else {
                        0
                    },
                    ..self.player
                },
                ..self
            }
        } else {
            self
        };
        let speed = (s.player.base_vx as int * mult / 10) as i64;
        match direction {
            Direction::E => PhysState { player: PlayerState { vx: speed, ..s.player }, ..s },
            Direction::W => PhysState {
                player: PlayerState { vx: (-speed) as i64, ..s.player },
                ..s
            },
            Direction::N => {
                if s.settings.mode == GameMode::Scroller {
                    PhysState { player: PlayerState { vy: speed, ..s.player }, ..s }
                } else {
                    let s2 = s.reset_can_jump_spec(stat);
                    if !s2.player.can_jump && !s2.player.jump_override {
                        s2
                    } else {
                        PhysState {
                            player: PlayerState {
                                vy: (s2.player.base_vy as int * mult / 10) as i64,
                                in_the_air: true,
                                ..s2.player
                            },
                            ..s2
                        }
                    }
                }
            },
            Direction::S => {
                if s.settings.mode == GameMode::Scroller {
                    PhysState { player: PlayerState { vy: (-speed) as i64, ..s.player }, ..s }
                } else {
                    s
                }
            },
        }
    }

    /// Movement intent: reset the velocity (both axes in scroller mode),
    /// then apply each pressed direction key in order right, left, up,
    /// down.  Sprinting is in effect when shift is held and stamina is
    /// positive at entry.
    #[verifier::opaque]
    pub open spec fn update_movement_spec(
        self,
        stat: StaticState,
        mov: Move,
        shift_pressed: bool,
    ) -> PhysState {
        let s0 = PhysState {
            player: PlayerState {
                vx: 0,
                vy: if self.settings.mode == GameMode::Scroller {
                    0
                } else {
                    self.player.vy
                },
                running: false,
                ..self.player
            },
            ..self
        };
        let sprinting = shift_pressed && s0.player.stamina > 0;
        let s1 = if mov.is_right_spec() {
            s0.change_direction_spec(stat, Direction::E, sprinting)
        } else {
            s0
        };
        let s2 = if mov.is_left_spec() {
            s1.change_direction_spec(stat, Direction::W, sprinting)
        } else {
            s1
        };
        let s3 = if mov.is_up_spec() {
            s2.change_direction_spec(stat, Direction::N, sprinting)
        } else {
            s2
        };
        if s3.settings.mode == GameMode::Scroller && mov.is_down_spec() {
            s3.change_direction_spec(stat, Direction::S, sprinting)
        } else {
            s3
        }
    }

    /// Stamina regenerates by half a point up to the cap whenever the
    /// player neither sprinted this tick nor holds shift.
    pub open spec fn update_stamina_spec(self, shift_pressed: bool) -> PhysState {
        if self.player.running || shift_pressed {
            self
        } else {
            PhysState {
                player: PlayerState {
                    stamina: if self.player.stamina + 1 <= STAMINA_MAX {
                        (self.player.stamina + 1) as i64
                    } else {
                        STAMINA_MAX
                    },
                    ..self.player
                },
                ..self
            }
        }
    }

    /// Movement intent followed by stamina update.
    #[verifier::opaque]
    pub open spec fn player_tick_spec(self, stat: StaticState, mov: Move, shift_pressed: bool) -> PhysState {
        self.update_movement_spec(stat, mov, shift_pressed).update_stamina_spec(shift_pressed)
    }

    /// Collision alignment: no overlap at all marks the player airborne;
    /// otherwise horizontal corrections are applied first, collisions are
    /// recomputed, and vertical corrections follow.
    #[verifier::opaque]
    pub open spec fn align_edges_spec(self, stat: StaticState) -> PhysState {
        let pbox = self.player.hitbox_spec();
        let n = stat.objects@.len() as int;
        let cx = cls_x_prefix(stat.objects@, pbox, n);
        let cy = cls_y_prefix(stat.objects@, pbox, n);
        if cx.len() == 0 && cy.len() == 0 {
            PhysState { player: PlayerState { in_the_air: true, ..self.player }, ..self }
        } else {
            let p1 = fold_align_x(self.player, cx, cx.len() as int);
            let cy2 = cls_y_prefix(stat.objects@, p1.hitbox_spec(), n);
            let p2 = fold_align_y(p1, cy2, cy2.len() as int);
            PhysState { player: p2, ..self }
        }
    }

    /// Environment-modifier detection: the extension point currently
    /// reports no active modifier and leaves the state unchanged.
    pub open spec fn detect_env_mod_spec(self, stat: StaticState) -> PhysState {
        self
    }

    /// End-of-tick side check: contact with a deadly or moving hazard
    /// hitbox, or kinematics beyond the world bounds, marks the player
    /// dead.  Death is sticky.
    #[verifier::opaque]
    pub open spec fn death_check_spec(self, stat: StaticState) -> PhysState {
        let pbox = self.player.hitbox_spec();
        let out_of_bounds = abs(self.player.x as int) > COORD_LIMIT || abs(self.player.y as int)
            > COORD_LIMIT || abs(self.player.vx as int) > VEL_LIMIT || abs(self.player.vy as int)
            > VEL_LIMIT;
        let dead = self.player.dead || touches_any(stat.deadly@, pbox) || touches_any(
            stat.proj@,
            pbox,
        ) || out_of_bounds;
        PhysState { player: PlayerState { dead, ..self.player }, ..self }
    }

    /// One full tick: movement intent and stamina, position integration,
    /// collision alignment, modifier detection, gravity when airborne,
    /// and the death/out-of-bounds side check.
    #[verifier::opaque]
    pub open spec fn tick_spec(self, mov: Move, shift_pressed: bool, stat: StaticState) -> PhysState {
        let s1 = self.player_tick_spec(stat, mov, shift_pressed);
        let s2 = PhysState { player: s1.player.update_position_spec(), ..s1 };
        let s3 = s2.align_edges_spec(stat);
        let s4 = s3.detect_env_mod_spec(stat);
        let s5 = s4.apply_gravity_spec();
        s5.death_check_spec(stat)
    }

    /// The goal test: both position components within `precision`
    /// fixed-point steps of the target's, independent of mode and
    /// velocity.
    pub open spec fn close_enough_spec(self, target: PhysState, precision: int) -> bool {
        abs(self.player.x - target.player.x) <= precision && abs(
            self.player.y - target.player.y,
        ) <= precision
    }

    /// All collisions of `player` against the solids, partitioned into
    /// horizontal-resolving and vertical-resolving lists by which axis of
    /// the penetration vector rounds to zero at two decimal digits.
    fn get_collisions_list(&self, state: &StaticState, player: &Hitbox) -> (r: (
        Vec<Collision>,
        Vec<Collision>,
    ))
        requires
            state.wf(),
            player.bounded(),
        ensures
            r.0@ == cls_x_prefix(state.objects@, *player, state.objects@.len() as int),
            r.1@ == cls_y_prefix(state.objects@, *player, state.objects@.len() as int),
    {
        let mut collisions_x: Vec<Collision> = Vec::new();
        let mut collisions_y: Vec<Collision> = Vec::new();
        let mut i: usize = 0;
        while i < state.objects.len()
            invariant
                state.wf(),
                player.bounded(),
                i <= state.objects@.len(),
                collisions_x@ == cls_x_prefix(state.objects@, *player, i as int),
                collisions_y@ == cls_y_prefix(state.objects@, *player, i as int),
            decreases state.objects@.len() - i,
        {
            let o1 = state.objects[i].0;
            if o1.collides(player) {
                let mpv = o1.get_mpv(player);
                if round(mpv.x, 2) == 0 {
                    collisions_y.push(Collision { hitbox: o1, mpv });
                } else if round(mpv.y, 2) == 0 {
                    collisions_x.push(Collision { hitbox: o1, mpv });
                }
            }
            i = i + 1;
        }
        (collisions_x, collisions_y)
    }

    /// Apply one horizontal correction to the player.
    fn align_x_edge(&mut self, collision: Collision)
        requires
            old(self).player.wf_mid(),
            collision.hitbox.wf(),
            abs(collision.mpv.x as int) <= 8 * COORD_LIMIT,
        ensures
            *final(self) == (PhysState {
                player: align_x_edge_spec(old(self).player, collision),
                ..*old(self)
            }),
            final(self).player.wf_mid(),
    {
        if round(collision.mpv.x, 2) == 0 {
            return ;
        }
        self.player.vx = 0;
        if collision.mpv.x < 0 {
            let shift = collision.hitbox.get_leftmost_point() - (self.player.x + self.player.width);
            self.player.move_by(shift, 0);
        } else {
            let shift = collision.hitbox.get_rightmost_point() - self.player.x;
            self.player.move_by(shift, 0);
        }
    }

    /// Apply one vertical correction to the player.
    fn align_y_edge(&mut self, collision: Collision)
        requires
            old(self).player.wf_mid(),
            collision.hitbox.wf(),
            abs(collision.mpv.y as int) <= 8 * COORD_LIMIT,
        ensures
            *final(self) == (PhysState {
                player: align_y_edge_spec(old(self).player, collision),
                ..*old(self)
            }),
            final(self).player.wf_mid(),
    {
        if round(collision.mpv.y, 2) == 0 {
            return ;
        }
        self.player.vy = 0;
        if collision.mpv.y > 0 {
            let shift = collision.hitbox.get_highest_point() - self.player.y;
            self.player.move_by(0, shift);
            self.player.in_the_air = false;
        } else {
            let shift = collision.hitbox.get_lowest_point() - (self.player.y + self.player.height);
            self.player.move_by(0, shift);
        }
    }

    /// Collision alignment against all solids: horizontal corrections
    /// first, then vertical corrections against the recomputed overlaps.
    fn align_edges(&mut self, state: &StaticState)
        requires
            old(self).player.wf_mid(),
            state.wf(),
        ensures
            *final(self) == old(self).align_edges_spec(*state),
            final(self).player.wf_mid(),
            abs(final(self).player.vx as int) <= abs(old(self).player.vx as int),
            abs(final(self).player.vy as int) <= abs(old(self).player.vy as int),
    {
        let ghost n = state.objects@.len() as int;
        proof {
            reveal(PhysState::align_edges_spec);
            lemma_cls_props(state.objects@, old(self).player.hitbox_spec(), n);
        }
        let pbox = self.player.get_hitbox();
        let (collisions_x, collisions_y) = self.get_collisions_list(state, &pbox);
        if collisions_x.len() == 0 && collisions_y.len() == 0 {
            self.player.in_the_air = true;
            return ;
        }
        let mut i: usize = 0;
        while i < collisions_x.len()
            invariant
                i <= collisions_x@.len(),
                collisions_x@ == cls_x_prefix(state.objects@, old(self).player.hitbox_spec(), n),
                forall|j: int|
                    0 <= j < collisions_x@.len() ==> (#[trigger] collisions_x@[j]).hitbox.wf()
                        && abs(collisions_x@[j].mpv.x as int) <= 8 * COORD_LIMIT,
                *self == (PhysState {
                    player: fold_align_x(old(self).player, collisions_x@, i as int),
                    ..*old(self)
                }),
                self.player.wf_mid(),
                abs(self.player.vx as int) <= abs(old(self).player.vx as int),
                abs(self.player.vy as int) <= abs(old(self).player.vy as int),
            decreases collisions_x@.len() - i,
        {
            self.align_x_edge(collisions_x[i]);
            i = i + 1;
        }
        proof {
            lemma_cls_props(state.objects@, self.player.hitbox_spec(), n);
        }
        let pbox2 = self.player.get_hitbox();
        let (_, collisions_y2) = self.get_collisions_list(state, &pbox2);
        let ghost mid = *self;
        let mut i: usize = 0;
        while i < collisions_y2.len()
            invariant
                i <= collisions_y2@.len(),
                collisions_y2@ == cls_y_prefix(state.objects@, mid.player.hitbox_spec(), n),
                abs(mid.player.vx as int) <= abs(old(self).player.vx as int),
                abs(mid.player.vy as int) <= abs(old(self).player.vy as int),
                forall|j: int|
                    0 <= j < collisions_y2@.len() ==> (#[trigger] collisions_y2@[j]).hitbox.wf()
                        && abs(collisions_y2@[j].mpv.y as int) <= 8 * COORD_LIMIT,
                *self == (PhysState {
                    player: fold_align_y(mid.player, collisions_y2@, i as int),
                    ..mid
                }),
                self.player.wf_mid(),
                abs(self.player.vx as int) <= abs(old(self).player.vx as int),
                abs(self.player.vy as int) <= abs(old(self).player.vy as int),
            decreases collisions_y2@.len() - i,
        {
            self.align_y_edge(collisions_y2[i]);
            i = i + 1;
        }
    }

    /// Jump gating: in scroller mode jumping is always permitted; in
    /// platformer mode probe one unit below the player and permit the
    /// jump only when some overlap would push the player back up.
    fn player_reset_can_jump(&mut self, state: &StaticState)
        requires
            old(self).player.wf_mid(),
            state.wf(),
        ensures
            *final(self) == old(self).reset_can_jump_spec(*state),
            final(self).player.wf_mid(),
    {
        proof {
            reveal(PhysState::reset_can_jump_spec);
        }
        if self.settings.mode == GameMode::Scroller {
            self.player.can_jump = true;
            return ;
        }
        self.player.can_jump = false;
        self.player.move_by(0, -600);
        let pbox = self.player.get_hitbox();
        let (_, list_y) = self.get_collisions_list(state, &pbox);
        let mut i: usize = 0;
        while i < list_y.len()
            invariant
                i <= list_y@.len(),
                old(self).player.wf_mid(),
                self.player.can_jump == exists|j: int|
                    0 <= j < i && (#[trigger] list_y@[j]).mpv.y > 0,
                *self == (PhysState {
                    player: PlayerState {
                        can_jump: self.player.can_jump,
                        ..old(self).player.moved_by_spec(0, -600)
                    },
                    ..*old(self)
                }),
            decreases list_y@.len() - i,
        {
            if list_y[i].mpv.y > 0 {
                self.player.can_jump = true;
            }
            i = i + 1;
        }
        self.player.move_by(0, 600);
        proof {
            let cy = cls_y_prefix(
                state.objects@,
                old(self).player.moved_by_spec(0, -600).hitbox_spec(),
                state.objects@.len() as int,
            );
            assert(list_y@ == cy);
            assert(self.player.can_jump == (exists|i: int|
                0 <= i < cy.len() && (#[trigger] cy[i]).mpv.y > 0));
        }
    }

    /// Apply one direction key, sprinting when requested and possible.
    #[verifier::rlimit(100)]
    fn player_change_direction(&mut self, state: &StaticState, direction: Direction, sprinting: bool)
        requires
            old(self).player.wf(),
            state.wf(),
        ensures
            *final(self) == old(self).change_direction_spec(*state, direction, sprinting),
            final(self).player.wf(),
    {
        proof {
            reveal(PhysState::change_direction_spec);
            reveal(PhysState::reset_can_jump_spec);
        }
        let horizontal = matches!(direction, Direction::E | Direction::W);
        let mut speed_multiplier: i64 = 10;
        if horizontal && sprinting {
            speed_multiplier = self.player.speed_multiplier;
            self.player.running = true;
            self.player.stamina = if self.player.stamina >= 1 {
                self.player.stamina - 1
            } else {
                0
            };
        }
        proof {
            lemma_speed_bounded(
                self.player.base_vx as int,
                speed_multiplier as int,
                self.player.base_vy as int,
            );
        }
        let speed = self.player.base_vx * speed_multiplier / 10;
        match direction {
            Direction::E => {
                self.player.vx = speed;
            },
            Direction::W => {
                self.player.vx = -speed;
            },
            Direction::N => {
                if self.settings.mode == GameMode::Scroller {
                    self.player.vy = speed;
                    return ;
                }
                self.player_reset_can_jump(state);
                if !self.player.can_jump && !self.player.jump_override {
                    return ;
                }
                self.player.vy = self.player.base_vy * speed_multiplier / 10;
                self.player.in_the_air = true;
            },
            Direction::S => {
                if self.settings.mode == GameMode::Scroller {
                    self.player.vy = -speed;
                }
            },
        }
    }

    /// Movement intent for one tick's move and shift key.
    fn player_update_movement(&mut self, state: &StaticState, mov: Move, shift_pressed: bool)
        requires
            old(self).player.wf(),
            state.wf(),
        ensures
            *final(self) == old(self).update_movement_spec(*state, mov, shift_pressed),
            final(self).player.wf(),
    {
        proof {
            reveal(PhysState::update_movement_spec);
        }
        self.player.vx = 0;
        if self.settings.mode == GameMode::Scroller {
            self.player.vy = 0;
        }
        self.player.running = false;
        let sprinting = shift_pressed && self.player.stamina > 0;
        if mov.is_right() {
            self.player_change_direction(state, Direction::E, sprinting);
        }
        if mov.is_left() {
            self.player_change_direction(state, Direction::W, sprinting);
        }
        if mov.is_up() {
            self.player_change_direction(state, Direction::N, sprinting);
        }
        if self.settings.mode == GameMode::Scroller && mov.is_down() {
            self.player_change_direction(state, Direction::S, sprinting);
        }
    }

    /// Stamina regeneration at the end of the movement step.
    fn player_update_stamina(&mut self, shift_pressed: bool)
        requires
            old(self).player.wf(),
        ensures
            *final(self) == old(self).update_stamina_spec(shift_pressed),
            final(self).player.wf(),
    {
        if self.player.running || shift_pressed {
            return ;
        }
        self.player.stamina = if self.player.stamina + 1 <= STAMINA_MAX {
            self.player.stamina + 1
        } else {
            STAMINA_MAX
        };
    }

    /// Movement intent and stamina for one tick.
    fn player_tick(&mut self, state: &StaticState, mov: Move, shift_pressed: bool)
        requires
            old(self).player.wf(),
            state.wf(),
        ensures
            *final(self) == old(self).player_tick_spec(*state, mov, shift_pressed),
            final(self).player.wf(),
    {
        proof {
            reveal(PhysState::player_tick_spec);
        }
        self.player_update_movement(state, mov, shift_pressed);
        self.player_update_stamina(shift_pressed);
    }

    /// Environment-modifier detection: an extension point that currently
    /// reports no active modifier.
    fn detect_env_mod(&mut self, state: &StaticState)
        ensures
            *final(self) == old(self).detect_env_mod_spec(*state),
    {
    }

    /// Gravity: an airborne player loses one velocity step per tick.
    pub open spec fn apply_gravity_spec(self) -> PhysState {
        if self.player.in_the_air {
            PhysState {
                player: PlayerState { vy: (self.player.vy - GRAVITY_STEP) as i64, ..self.player },
                ..self
            }
        } else {
            self
        }
    }

    fn apply_gravity(&mut self)
        requires
            old(self).player.wf_mid(),
            abs(old(self).player.vy as int) <= VEL_LIMIT + 1,
        ensures
            *final(self) == old(self).apply_gravity_spec(),
            final(self).player.wf_mid(),
            abs(final(self).player.vy as int) <= abs(old(self).player.vy as int) + 1,
    {
        if self.player.in_the_air {
            self.player.vy = self.player.vy - GRAVITY_STEP;
        }
    }

    /// End-of-tick side check: mark the player dead on hazard contact or
    /// kinematics beyond the world bounds.
    fn death_check(&mut self, state: &StaticState)
        requires
            old(self).player.wf_mid(),
            state.wf(),
        ensures
            *final(self) == old(self).death_check_spec(*state),
            !final(self).player.dead ==> final(self).player.wf(),
    {
        proof {
            reveal(PhysState::death_check_spec);
        }
        let pbox = self.player.get_hitbox();
        let mut dead = self.player.dead;
        let mut i: usize = 0;
        while i < state.deadly.len()
            invariant
                state.wf(),
                i <= state.deadly@.len(),
                pbox.bounded(),
                dead == (self.player.dead || exists|j: int|
                    0 <= j < i && (#[trigger] state.deadly@[j]).collides_spec(pbox)),
            decreases state.deadly@.len() - i,
        {
            if state.deadly[i].collides(&pbox) {
                dead = true;
            }
            i = i + 1;
        }
        let ghost dead_mid = dead;
        let mut i: usize = 0;
        while i < state.proj.len()
            invariant
                state.wf(),
                i <= state.proj@.len(),
                pbox.bounded(),
                dead == (dead_mid || exists|j: int|
                    0 <= j < i && (#[trigger] state.proj@[j]).collides_spec(pbox)),
            decreases state.proj@.len() - i,
        {
            if state.proj[i].collides(&pbox) {
                dead = true;
            }
            i = i + 1;
        }
        if self.player.x > COORD_LIMIT || self.player.x < -COORD_LIMIT || self.player.y
            > COORD_LIMIT || self.player.y < -COORD_LIMIT || self.player.vx > VEL_LIMIT
            || self.player.vx < -VEL_LIMIT || self.player.vy > VEL_LIMIT || self.player.vy
            < -VEL_LIMIT {
            dead = true;
        }
        self.player.dead = dead;
    }

    /// Advance this state by one tick under the given move and shift key.
    ///
    /// The result is exactly `tick_spec` of the old state, and every
    /// surviving (non-dead) successor is well formed again.
    #[verifier::rlimit(100)]
    pub fn tick(
        &mut self,
        mov: Move,
        shift_pressed: bool,
        state: &StaticState,
        _search_settings: &SearchSettings,
    )
        requires
            old(self).player.wf(),
            state.wf(),
        ensures
            *final(self) == old(self).tick_spec(mov, shift_pressed, *state),
            !final(self).player.dead ==> final(self).player.wf(),
    {
        let ghost t0 = *old(self);
        self.player_tick(state, mov, shift_pressed);
        let ghost t1 = *self;
        self.player.update_position();
        let ghost t2 = *self;
        proof {
            assert(t2 == (PhysState { player: t1.player.update_position_spec(), ..t1 }));
        }
        self.align_edges(state);
        let ghost t3 = *self;
        self.detect_env_mod(state);
        let ghost t4 = *self;
        self.apply_gravity();
        let ghost t5 = *self;
        self.death_check(state);
        proof {
            lemma_tick_compose(t0, mov, shift_pressed, *state, t1, t2, t3, t4, t5, *self);
        }
    }

    /// Horizontal position quantized to the nearest 0.1 unit.
    pub open spec fn simple_x_spec(self) -> int {
        round_mult(self.player.x as int, 60)
    }

    pub fn simple_player_x(&self) -> (r: i64)
        requires
            abs(self.player.x as int) <= ROUND_LIMIT,
        ensures
            r as int == self.simple_x_spec(),
    {
        round(self.player.x, 1)
    }

    /// Vertical position quantized to the nearest 0.1 unit.
    pub open spec fn simple_y_spec(self) -> int {
        round_mult(self.player.y as int, 60)
    }

    pub fn simple_player_y(&self) -> (r: i64)
        requires
            abs(self.player.y as int) <= ROUND_LIMIT,
        ensures
            r as int == self.simple_y_spec(),
    {
        round(self.player.y, 1)
    }

    /// Vertical velocity quantized to the nearest whole unit per second.
    pub open spec fn simple_vy_spec(self) -> int {
        round_mult(self.player.vy as int, 10)
    }

    pub fn simple_player_vy(&self) -> (r: i64)
        requires
            abs(self.player.vy as int) <= ROUND_LIMIT,
        ensures
            r as int == self.simple_vy_spec(),
    {
        crate::rounding::round_to_multiple(self.player.vy, 10)
    }

    /// The deduplication key of this state: under simple geometry the
    /// quantized position (and, in platformer mode, quantized vertical
    /// velocity), otherwise the exact position (and exact vertical
    /// velocity in platformer mode).  Two states are one search node
    /// exactly when their keys are equal; horizontal velocity, stamina
    /// and the status flags are deliberately ignored.
    pub open spec fn key_spec(self) -> (int, int, int) {
        let kx = if self.settings.simple_geometry {
            self.simple_x_spec()
        } else {
            self.player.x as int
        };
        let ky = if self.settings.simple_geometry {
            self.simple_y_spec()
        } else {
            self.player.y as int
        };
        let kv = if self.settings.mode == GameMode::Platformer {
            if self.settings.simple_geometry {
                self.simple_vy_spec()
            } else {
                self.player.vy as int
            }
        } else {
            0
        };
        (kx, ky, kv)
    }

    /// The executable deduplication key; the search engine's maps hash
    /// states by exactly these three integers, so states that compare
    /// equal under `equiv_spec` always hash identically.
    pub fn state_key(&self) -> (r: (i64, i64, i64))
        requires
            abs(self.player.x as int) <= ROUND_LIMIT,
            abs(self.player.y as int) <= ROUND_LIMIT,
            abs(self.player.vy as int) <= ROUND_LIMIT,
        ensures
            (r.0 as int, r.1 as int, r.2 as int) == self.key_spec(),
    {
        let kx = if self.settings.simple_geometry {
            self.simple_player_x()
        } else {
            self.player.x
        };
        let ky = if self.settings.simple_geometry {
            self.simple_player_y()
        } else {
            self.player.y
        };
        let kv = if matches!(self.settings.mode, GameMode::Platformer) {
            if self.settings.simple_geometry {
                self.simple_player_vy()
            } else {
                self.player.vy
            }
        } else {
            0
        };
        (kx, ky, kv)
    }

    /// The state-equivalence relation used to collapse the search graph:
    /// key equality.
    pub open spec fn equiv_spec(self, other: PhysState) -> bool {
        self.key_spec() == other.key_spec()
    }

    pub fn equivalent_to(&self, other: &PhysState) -> (r: bool)
        requires
            abs(self.player.x as int) <= ROUND_LIMIT,
            abs(self.player.y as int) <= ROUND_LIMIT,
            abs(self.player.vy as int) <= ROUND_LIMIT,
            abs(other.player.x as int) <= ROUND_LIMIT,
            abs(other.player.y as int) <= ROUND_LIMIT,
            abs(other.player.vy as int) <= ROUND_LIMIT,
        ensures
            r == self.equiv_spec(*other),
    {
        let a = self.state_key();
        let b = other.state_key();
        a.0 == b.0 && a.1 == b.1 && a.2 == b.2
    }

    pub fn close_enough(&self, target_state: &PhysState, precision: i64) -> (r: bool)
        requires
            abs(self.player.x as int) <= 2 * COORD_LIMIT,
            abs(self.player.y as int) <= 2 * COORD_LIMIT,
            abs(target_state.player.x as int) <= 2 * COORD_LIMIT,
            abs(target_state.player.y as int) <= 2 * COORD_LIMIT,
        ensures
            r == self.close_enough_spec(*target_state, precision as int),
    {
        let dx = self.player.x - target_state.player.x;
        let dy = self.player.y - target_state.player.y;
        let adx = if dx >= 0 {
            dx
        } else {
            -dx
        };
        let ady = if dy >= 0 {
            dy
        } else {
            -dy
        };
        adx <= precision && ady <= precision
    }
}

/// Every collision a well-formed solids list yields against a bounded
/// player hitbox has a well-formed obstacle hitbox and a bounded
/// penetration vector.
proof fn lemma_cls_props(objects: Seq<(Hitbox, ObjectType)>, pbox: Hitbox, n: int)
    requires
        n <= objects.len(),
        forall|i: int| 0 <= i < objects.len() ==> (#[trigger] objects[i]).0.wf(),
        pbox.bounded(),
    ensures
        forall|i: int|
            0 <= i < cls_x_prefix(objects, pbox, n).len() ==> (#[trigger] cls_x_prefix(
                objects,
                pbox,
                n,
            )[i]).hitbox.wf() && abs(cls_x_prefix(objects, pbox, n)[i].mpv.x as int) <= 8
                * COORD_LIMIT && abs(cls_x_prefix(objects, pbox, n)[i].mpv.y as int) <= 8
                * COORD_LIMIT,
        forall|i: int|
            0 <= i < cls_y_prefix(objects, pbox, n).len() ==> (#[trigger] cls_y_prefix(
                objects,
                pbox,
                n,
            )[i]).hitbox.wf() && abs(cls_y_prefix(objects, pbox, n)[i].mpv.x as int) <= 8
                * COORD_LIMIT && abs(cls_y_prefix(objects, pbox, n)[i].mpv.y as int) <= 8
                * COORD_LIMIT,
    decreases n,
{
    if n > 0 {
        lemma_cls_props(objects, pbox, n - 1);
        let o = objects[n - 1].0;
        let cx = cls_x_prefix(objects, pbox, n);
        let cy = cls_y_prefix(objects, pbox, n);
        let cx0 = cls_x_prefix(objects, pbox, n - 1);
        let cy0 = cls_y_prefix(objects, pbox, n - 1);
        assert(forall|i: int| 0 <= i < cx0.len() ==> cx[i] == cx0[i]);
        assert(forall|i: int| 0 <= i < cy0.len() ==> cy[i] == cy0[i]);
    }
}

/// The sprint-scaled speed of a well-formed player stays within the
/// velocity bound.
proof fn lemma_speed_bounded(base_vx: int, mult: int, base_vy: int)
    requires
        0 <= base_vx <= crate::player::BASE_SPEED_LIMIT,
        0 <= base_vy <= crate::player::BASE_SPEED_LIMIT,
        0 <= mult <= crate::player::MULTIPLIER_LIMIT,
    ensures
        0 <= base_vx * mult <= 10 * VEL_LIMIT,
        0 <= base_vy * mult <= 10 * VEL_LIMIT,
        0 <= base_vx * mult / 10 <= VEL_LIMIT,
        0 <= base_vy * mult / 10 <= VEL_LIMIT,
{
    assert(0 <= base_vx * mult <= 10 * VEL_LIMIT && 0 <= base_vy * mult <= 10 * VEL_LIMIT)
        by (nonlinear_arith)
        requires
            0 <= base_vx <= crate::player::BASE_SPEED_LIMIT && 0 <= base_vy
                <= crate::player::BASE_SPEED_LIMIT && 0 <= mult <= crate::player::MULTIPLIER_LIMIT,
    ;
    vstd::arithmetic::div_mod::lemma_div_is_ordered(0, base_vx * mult, 10);
    vstd::arithmetic::div_mod::lemma_div_is_ordered(base_vx * mult, 10 * VEL_LIMIT, 10);
    vstd::arithmetic::div_mod::lemma_div_is_ordered(0, base_vy * mult, 10);
    vstd::arithmetic::div_mod::lemma_div_is_ordered(base_vy * mult, 10 * VEL_LIMIT, 10);
    assert(10 * VEL_LIMIT / 10 == VEL_LIMIT);
    assert(0int / 10 == 0);
}

/// One tick is exactly the composition of its six stages.
#[verifier::rlimit(100)]
proof fn lemma_tick_compose(
    t0: PhysState,
    mov: Move,
    shift_pressed: bool,
    stat: StaticState,
    t1: PhysState,
    t2: PhysState,
    t3: PhysState,
    t4: PhysState,
    t5: PhysState,
    t6: PhysState,
)
    requires
        t1 == t0.player_tick_spec(stat, mov, shift_pressed),
        t2 == (PhysState { player: t1.player.update_position_spec(), ..t1 }),
        t3 == t2.align_edges_spec(stat),
        t4 == t3.detect_env_mod_spec(stat),
        t5 == t4.apply_gravity_spec(),
        t6 == t5.death_check_spec(stat),
    ensures
        t6 == t0.tick_spec(mov, shift_pressed, stat),
{
    reveal(PhysState::tick_spec);
}

/// State equivalence is reflexive.
pub proof fn lemma_equiv_reflexive(a: PhysState)
    ensures
        a.equiv_spec(a),
{
}

/// State equivalence is symmetric.
pub proof fn lemma_equiv_symmetric(a: PhysState, b: PhysState)
    ensures
        a.equiv_spec(b) == b.equiv_spec(a),
{
}

/// State equivalence is transitive.
pub proof fn lemma_equiv_transitive(a: PhysState, b: PhysState, c: PhysState)
    requires
        a.equiv_spec(b),
        b.equiv_spec(c),
    ensures
        a.equiv_spec(c),
{
}

/// Equivalent states hash identically: the search maps hash a state by
/// its key, and equivalent states have equal keys by definition.
pub proof fn lemma_equiv_equal_keys(a: PhysState, b: PhysState)
    requires
        a.equiv_spec(b),
    ensures
        a.key_spec() == b.key_spec(),
{
}

/// One direction application never touches the step-up guard flag.
proof fn lemma_change_direction_keeps_flag(
    s: PhysState,
    stat: StaticState,
    direction: Direction,
    sprinting: bool,
)
    ensures
        s.change_direction_spec(stat, direction, sprinting).was_step_up_before
            == s.was_step_up_before,
{
    reveal(PhysState::change_direction_spec);
    reveal(PhysState::reset_can_jump_spec);
}

/// The whole movement step never touches the step-up guard flag.
proof fn lemma_update_movement_keeps_flag(
    s: PhysState,
    stat: StaticState,
    mov: Move,
    shift_pressed: bool,
)
    ensures
        s.update_movement_spec(stat, mov, shift_pressed).was_step_up_before
            == s.was_step_up_before,
{
    reveal(PhysState::update_movement_spec);
    let s0 = PhysState {
        player: PlayerState {
            vx: 0,
            vy: if s.settings.mode == GameMode::Scroller {
                0
            } else {
                s.player.vy
            },
            running: false,
            ..s.player
        },
        ..s
    };
    let sprinting = shift_pressed && s0.player.stamina > 0;
    let s1 = if mov.is_right_spec() {
        s0.change_direction_spec(stat, Direction::E, sprinting)
    } else {
        s0
    };
    let s2 = if mov.is_left_spec() {
        s1.change_direction_spec(stat, Direction::W, sprinting)
    } else {
        s1
    };
    let s3 = if mov.is_up_spec() {
        s2.change_direction_spec(stat, Direction::N, sprinting)
    } else {
        s2
    };
    lemma_change_direction_keeps_flag(s0, stat, Direction::E, sprinting);
    lemma_change_direction_keeps_flag(s1, stat, Direction::W, sprinting);
    lemma_change_direction_keeps_flag(s2, stat, Direction::N, sprinting);
    lemma_change_direction_keeps_flag(s3, stat, Direction::S, sprinting);
}

/// A tick never changes the step-up guard flag: the search sets it on
/// each successor before simulating, and the simulation carries it
/// through unchanged.
pub proof fn lemma_tick_keeps_flag(s: PhysState, mov: Move, shift_pressed: bool, stat: StaticState)
    ensures
        s.tick_spec(mov, shift_pressed, stat).was_step_up_before == s.was_step_up_before,
{
    reveal(PhysState::tick_spec);
    reveal(PhysState::player_tick_spec);
    reveal(PhysState::align_edges_spec);
    reveal(PhysState::death_check_spec);
    lemma_update_movement_keeps_flag(s, stat, mov, shift_pressed);
}

/// Single-step simulation for external preview or validation: the player
/// record after one tick of `state` under the given move and shift key.
pub fn get_transition(
    settings: SearchSettings,
    static_state: StaticState,
    state: PhysState,
    next_move: Move,
    shift_pressed: bool,
) -> (r: PlayerState)
    requires
        state.player.wf(),
        static_state.wf(),
    ensures
        r == state.tick_spec(next_move, shift_pressed, static_state).player,
{
    let mut state = state;
    state.tick(next_move, shift_pressed, &static_state, &settings);
    state.player
}

} // verus!
