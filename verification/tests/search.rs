use tickroute::astar::astar_search;
use tickroute::geometry::{Hitbox, Pointf};
use tickroute::moves::Move;
use tickroute::objects::ObjectType;
use tickroute::physics::{get_transition, PhysState};
use tickroute::player::PlayerState;
use tickroute::settings::{GameMode, PhysicsSettings, SearchSettings};
use tickroute::static_state::StaticState;

fn base_player() -> PlayerState {
    PlayerState {
        x: 0,
        y: 0,
        vx: 0,
        vy: 0,
        base_vx: 1600,
        base_vy: 3200,
        speed_multiplier: 15,
        stamina: 200,
        width: 600,
        height: 600,
        running: false,
        in_the_air: false,
        can_jump: false,
        dead: false,
        jump_override: false,
    }
}

fn settings(timeout_secs: u64) -> SearchSettings {
    SearchSettings {
        mode: GameMode::Platformer,
        heuristic_weight_milli: 1000,
        timeout_secs,
        state_batch_size: 64,
        allowed_moves: Vec::new(),
        always_shift: false,
        disable_shift: false,
        simple_geometry: true,
    }
}

fn phys() -> PhysicsSettings {
    PhysicsSettings { mode: GameMode::Platformer, simple_geometry: true }
}

// Trivial open field: empty level, initial and target both at the
// origin.  The goal test only ever sees successors, so the engine still
// simulates at least one tick; the route has length >= 1 and ends within
// 16 units of the target.
#[test]
fn open_field_trivial_goal() {
    let level = StaticState::new(Vec::new(), Vec::new());
    let initial = PhysState::new(base_player(), phys());
    let target = PhysState::new(base_player(), phys());
    let route = astar_search(settings(5), initial, target, level).expect("route expected");
    assert!(route.len() >= 1);
    let last = route.last().unwrap().2;
    assert!((last.x - target.player.x).abs() <= 9600);
    assert!((last.y - target.player.y).abs() <= 9600);
    for (_, _, p) in &route {
        assert!(!p.dead);
    }
}

// Blocked path: a wall stands between the initial position and the
// target on flat ground.  The route must go around (over) the wall: no
// intermediate player state may overlap the wall's hitbox, and the final
// state is within 16 units of the target.
#[test]
fn blocked_path_goes_around() {
    let ground = Hitbox { x1: -60000, y1: -6000, x2: 60000, y2: 0 };
    // A wall 1 unit thick and 4 units tall, 20 units to the right.
    let wall = Hitbox { x1: 12000, y1: 0, x2: 12600, y2: 2400 };
    let level = StaticState::new(
        vec![
            (ground, ObjectType::Wall, Pointf { x: 0, y: 0 }),
            (wall, ObjectType::Wall, Pointf { x: 0, y: 0 }),
        ],
        Vec::new(),
    );
    let initial = PhysState::new(base_player(), phys());
    let mut target_player = base_player();
    target_player.x = 24000; // 40 units right
    let target = PhysState::new(target_player, phys());
    let route = astar_search(settings(10), initial, target.clone(), level).expect("route expected");
    assert!(route.len() >= 1);
    let last = route.last().unwrap().2;
    assert!((last.x - target.player.x).abs() <= 9600);
    assert!((last.y - target.player.y).abs() <= 9600);
    for (_, _, p) in &route {
        assert!(!p.dead);
        let pbox = Hitbox { x1: p.x, y1: p.y, x2: p.x + p.width, y2: p.y + p.height };
        assert!(!pbox.collides(&wall), "route passes through the wall");
    }
}

// Replaying a returned route tick by tick through get_transition from
// the initial state reproduces exactly the player states the route
// carries, and ends close enough to the target.
#[test]
fn route_replays_through_get_transition() {
    let ground = Hitbox { x1: -60000, y1: -6000, x2: 60000, y2: 0 };
    let wall = Hitbox { x1: 12000, y1: 0, x2: 12600, y2: 2400 };
    let level = StaticState::new(
        vec![
            (ground, ObjectType::Wall, Pointf { x: 0, y: 0 }),
            (wall, ObjectType::Wall, Pointf { x: 0, y: 0 }),
        ],
        Vec::new(),
    );
    let initial = PhysState::new(base_player(), phys());
    let mut target_player = base_player();
    target_player.x = 24000;
    let target = PhysState::new(target_player, phys());
    let route =
        astar_search(settings(10), initial, target.clone(), level.clone()).expect("route expected");

    let mut state = initial;
    for (mv, shift, expected) in &route {
        // The expansion sets the step-up guard before simulating.
        state.was_step_up_before = mv.is_up();
        let player = get_transition(settings(10), level.clone(), state, *mv, *shift);
        assert_eq!(player, *expected);
        state.player = player;
    }
    assert!(state.close_enough(&target, 9600));
}

// Unreachable target: the initial position is sealed inside solid walls
// and the target is far outside.  With a one-second timeout the search
// reports "not found" as a normal outcome.
#[test]
fn unreachable_target_times_out() {
    // Every wall is 20 units thick (more than any single tick of motion,
    // so no tunneling), and the floor and ceiling overhang the side walls
    // (so no reachable side edge can expel the player sideways).
    let floor = Hitbox { x1: -48000, y1: -12000, x2: 48000, y2: 0 };
    let ceiling = Hitbox { x1: -48000, y1: 6000, x2: 48000, y2: 18000 };
    let left = Hitbox { x1: -36000, y1: -6000, x2: -24000, y2: 12000 };
    let right = Hitbox { x1: 24000, y1: -6000, x2: 36000, y2: 12000 };
    let level = StaticState::new(
        vec![
            (floor, ObjectType::Wall, Pointf { x: 0, y: 0 }),
            (ceiling, ObjectType::Wall, Pointf { x: 0, y: 0 }),
            (left, ObjectType::Wall, Pointf { x: 0, y: 0 }),
            (right, ObjectType::Wall, Pointf { x: 0, y: 0 }),
        ],
        Vec::new(),
    );
    let initial = PhysState::new(base_player(), phys());
    let mut target_player = base_player();
    target_player.x = 300000; // 500 units away, outside the sealed box
    let target = PhysState::new(target_player, phys());
    let result = astar_search(settings(1), initial, target, level);
    assert!(result.is_none());
}

// The explicit allowed-moves override restricts expansion; with only
// horizontal moves toward the target the route still reaches it.
#[test]
fn allowed_moves_override() {
    let level = StaticState::new(Vec::new(), Vec::new());
    let initial = PhysState::new(base_player(), phys());
    let mut target_player = base_player();
    target_player.x = 12000; // 20 units right
    let target = PhysState::new(target_player, phys());
    let mut s = settings(5);
    s.allowed_moves = vec![Move::NONE, Move::D];
    let route = astar_search(s, initial, target.clone(), level).expect("route expected");
    let last = route.last().unwrap().2;
    assert!((last.x - target.player.x).abs() <= 9600);
    for (mv, _, _) in &route {
        assert!(matches!(mv, Move::NONE | Move::D));
    }
}
