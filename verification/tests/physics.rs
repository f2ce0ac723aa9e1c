use tickroute::geometry::{Hitbox, Pointf};
use tickroute::moves::Move;
use tickroute::objects::ObjectType;
use tickroute::physics::{get_transition, PhysState};
use tickroute::player::PlayerState;
use tickroute::settings::{GameMode, PhysicsSettings, SearchSettings};
use tickroute::static_state::StaticState;

fn base_player() -> PlayerState {
    PlayerState {
        x: 0,
        y: 0,
        vx: 0,
        vy: 0,
        base_vx: 1600,        // 160 units/s
        base_vy: 3200,        // 320 units/s
        speed_multiplier: 15, // 1.5x
        stamina: 200,
        width: 600,
        height: 600,
        running: false,
        in_the_air: false,
        can_jump: false,
        dead: false,
        jump_override: false,
    }
}

fn settings(mode: GameMode) -> SearchSettings {
    SearchSettings {
        mode,
        heuristic_weight_milli: 1000,
        timeout_secs: 5,
        state_batch_size: 32,
        allowed_moves: Vec::new(),
        always_shift: false,
        disable_shift: false,
        simple_geometry: true,
    }
}

fn empty_level() -> StaticState {
    StaticState::new(Vec::new(), Vec::new())
}

fn phys(mode: GameMode) -> PhysicsSettings {
    PhysicsSettings { mode, simple_geometry: true }
}

// A sprint request with zero stamina moves at the plain base speed and
// stamina never goes negative.
#[test]
fn sprint_gated_by_stamina() {
    let mut player = base_player();
    player.stamina = 0;
    let state = PhysState::new(player, phys(GameMode::Platformer));
    let out = get_transition(
        settings(GameMode::Platformer),
        empty_level(),
        state,
        Move::D,
        true,
    );
    assert_eq!(out.vx, 1600); // base speed, no 1.5x multiplier
    assert_eq!(out.stamina, 0);
    assert!(!out.running);
}

// With stamina available the same request sprints: 1.5x the base speed,
// and half a stamina point is debited.
#[test]
fn sprint_with_stamina() {
    let player = base_player();
    let state = PhysState::new(player, phys(GameMode::Platformer));
    let out = get_transition(
        settings(GameMode::Platformer),
        empty_level(),
        state,
        Move::D,
        true,
    );
    assert_eq!(out.vx, 2400); // 160 * 1.5 = 240 units/s
    assert_eq!(out.stamina, 199);
    assert!(out.running);
}

// Stamina regenerates by half a point when neither sprinting nor holding
// shift, and is capped at 100 points.
#[test]
fn stamina_regenerates_to_cap() {
    let mut player = base_player();
    player.stamina = 100;
    let state = PhysState::new(player, phys(GameMode::Platformer));
    let out = get_transition(
        settings(GameMode::Platformer),
        empty_level(),
        state,
        Move::NONE,
        false,
    );
    assert_eq!(out.stamina, 101);

    let mut full = base_player();
    full.stamina = 200;
    let state = PhysState::new(full, phys(GameMode::Platformer));
    let out = get_transition(
        settings(GameMode::Platformer),
        empty_level(),
        state,
        Move::NONE,
        false,
    );
    assert_eq!(out.stamina, 200);
}

// In the open air the player is airborne and gravity pulls: one tick of
// free fall costs 0.1 units/s of vertical velocity.
#[test]
fn gravity_applies_in_the_air() {
    let state = PhysState::new(base_player(), phys(GameMode::Platformer));
    let out = get_transition(
        settings(GameMode::Platformer),
        empty_level(),
        state,
        Move::NONE,
        false,
    );
    assert!(out.in_the_air);
    assert_eq!(out.vy, -1);
}

// A grounded platformer player can jump; the jump sets the vertical
// velocity to the jump speed and lifts the player off the ground.
#[test]
fn grounded_jump() {
    let ground = Hitbox { x1: -60000, y1: -6000, x2: 60000, y2: 0 };
    let level = StaticState::new(
        vec![(ground, ObjectType::Wall, Pointf { x: 0, y: 0 })],
        Vec::new(),
    );
    let state = PhysState::new(base_player(), phys(GameMode::Platformer));
    let out = get_transition(
        settings(GameMode::Platformer),
        level,
        state,
        Move::W,
        false,
    );
    assert!(out.in_the_air);
    assert_eq!(out.vy, 3200 - 1); // jump speed minus one tick of gravity
}

// Airborne without override, an up-move is a vertical no-op.
#[test]
fn airborne_jump_denied() {
    let mut player = base_player();
    player.y = 60000; // 100 units up, nothing below
    player.in_the_air = true;
    let state = PhysState::new(player, phys(GameMode::Platformer));
    let out = get_transition(
        settings(GameMode::Platformer),
        empty_level(),
        state,
        Move::W,
        false,
    );
    assert_eq!(out.vy, -1); // only gravity
    assert!(!out.can_jump);
}

// In scroller mode all four directions drive velocity directly and the
// vertical axis resets every tick.
#[test]
fn scroller_direct_control() {
    let state = PhysState::new(base_player(), phys(GameMode::Scroller));
    // Gravity still applies to an airborne scroller player, so one tick
    // costs 0.1 u/s on top of the commanded velocity.
    let up = get_transition(settings(GameMode::Scroller), empty_level(), state, Move::W, false);
    assert_eq!(up.vy, 1600 - 1);
    let state = PhysState::new(base_player(), phys(GameMode::Scroller));
    let down = get_transition(settings(GameMode::Scroller), empty_level(), state, Move::S, false);
    assert_eq!(down.vy, -1600 - 1);
}

// Walking into a wall stops the player flush against it: the leading
// edge is aligned to the obstacle and horizontal velocity is zeroed.
#[test]
fn wall_stops_horizontal_motion() {
    let ground = Hitbox { x1: -60000, y1: -6000, x2: 60000, y2: 0 };
    let wall = Hitbox { x1: 1200, y1: -6000, x2: 6000, y2: 6000 };
    let level = StaticState::new(
        vec![
            (ground, ObjectType::Wall, Pointf { x: 0, y: 0 }),
            (wall, ObjectType::Wall, Pointf { x: 0, y: 0 }),
        ],
        Vec::new(),
    );
    let state = PhysState::new(base_player(), phys(GameMode::Platformer));
    // One tick right at 160 u/s covers 2.67 units and would end inside
    // the wall that starts 1 unit away.
    let out = get_transition(settings(GameMode::Platformer), level, state, Move::D, false);
    assert_eq!(out.vx, 0);
    assert_eq!(out.x, 1200 - 600); // right edge flush with the wall's left edge
}

// Contact with a deadly hitbox kills the player.
#[test]
fn deadly_contact_kills() {
    let spike = Hitbox { x1: 600, y1: 0, x2: 1800, y2: 600 };
    let level = StaticState::new(
        vec![(spike, ObjectType::Ouch, Pointf { x: 0, y: 0 })],
        Vec::new(),
    );
    let state = PhysState::new(base_player(), phys(GameMode::Platformer));
    let out = get_transition(settings(GameMode::Platformer), level, state, Move::D, false);
    assert!(out.dead);
}

// The state-equivalence relation under simple geometry: positions within
// the same 0.1-unit cell collapse, and the relation is an equivalence.
#[test]
fn equivalence_quantizes_positions() {
    let p = phys(GameMode::Platformer);
    let mut a = PhysState::new(base_player(), p);
    let mut b = PhysState::new(base_player(), p);
    let mut c = PhysState::new(base_player(), p);
    a.player.x = 600; // 1.0 units
    b.player.x = 601; // rounds to the same 0.1 cell
    c.player.x = 599;
    assert!(a.equivalent_to(&a));
    assert!(a.equivalent_to(&b));
    assert!(b.equivalent_to(&a));
    assert!(b.equivalent_to(&c));
    assert!(a.equivalent_to(&c));
    // Equal states hash identically: the key is the hash input.
    assert_eq!(a.state_key(), b.state_key());
    // Stamina and horizontal velocity are deliberately ignored.
    b.player.stamina = 0;
    b.player.vx = 2400;
    assert!(a.equivalent_to(&b));
}

// Without simple geometry the comparison is exact.
#[test]
fn equivalence_exact_without_simple_geometry() {
    let p = PhysicsSettings { mode: GameMode::Platformer, simple_geometry: false };
    let mut a = PhysState::new(base_player(), p);
    let mut b = PhysState::new(base_player(), p);
    a.player.x = 600;
    b.player.x = 601;
    assert!(!a.equivalent_to(&b));
    b.player.x = 600;
    assert!(a.equivalent_to(&b));
}

// In platformer mode the vertical velocity participates in the key,
// quantized to whole units; in scroller mode it is ignored.
#[test]
fn equivalence_vertical_velocity_by_mode() {
    let p = phys(GameMode::Platformer);
    let mut a = PhysState::new(base_player(), p);
    let mut b = PhysState::new(base_player(), p);
    a.player.vy = 14; // 1.4 u/s -> rounds to 1
    b.player.vy = 8; // 0.8 u/s -> rounds to 1
    assert!(a.equivalent_to(&b));
    b.player.vy = 16; // -> rounds to 2
    assert!(!a.equivalent_to(&b));

    let s = phys(GameMode::Scroller);
    let mut c = PhysState::new(base_player(), s);
    let mut d = PhysState::new(base_player(), s);
    c.player.vy = 0;
    d.player.vy = 3200;
    assert!(c.equivalent_to(&d));
}

// The goal test ignores everything but position.
#[test]
fn close_enough_is_position_only() {
    let p = phys(GameMode::Platformer);
    let mut a = PhysState::new(base_player(), p);
    let mut b = PhysState::new(base_player(), p);
    a.player.x = 0;
    b.player.x = 9600;
    b.player.vy = 12345;
    assert!(a.close_enough(&b, 9600));
    b.player.x = 9601;
    assert!(!a.close_enough(&b, 9600));
}
