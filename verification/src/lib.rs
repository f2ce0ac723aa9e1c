//! Offline route search for a tick-based 2D platformer/scroller.
//!
//! The library simulates a player character one fixed tick (1/60 s) at a
//! time — velocity and position updates, gravity, axis-aligned collision
//! alignment, stamina-gated sprinting and jump gating — and runs a
//! best-first (A*-family) search over the reachable states to find a
//! minimal-tick input sequence from an initial state to a target state.
//!
//! All kinematics use exact fixed-point integers: positions are counted in
//! steps of 1/600 of a world unit and velocities in tenths of a unit per
//! second, so one tick of motion at velocity v advances the position by
//! exactly v fixed-point steps and every transition is deterministic.

pub mod astar;
pub mod clock;
pub mod env_modifier;
pub mod geometry;
pub mod moves;
pub mod objects;
pub mod player;
pub mod rounding;
pub mod physics;
pub mod settings;
pub mod state_map;
pub mod static_state;
