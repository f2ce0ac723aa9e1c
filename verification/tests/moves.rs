use tickroute::moves::Move;
use tickroute::settings::{GameMode, SearchSettings};

fn settings(mode: GameMode) -> SearchSettings {
    SearchSettings {
        mode,
        heuristic_weight_milli: 1000,
        timeout_secs: 1,
        state_batch_size: 1,
        allowed_moves: Vec::new(),
        always_shift: false,
        disable_shift: false,
        simple_geometry: false,
    }
}

// Platformer mode has six moves (no downward ones), scroller mode nine.
#[test]
fn all_moves_by_mode() {
    let p = Move::all(&settings(GameMode::Platformer));
    assert_eq!(p, vec![Move::NONE, Move::A, Move::D, Move::W, Move::WA, Move::WD]);
    let s = Move::all(&settings(GameMode::Scroller));
    assert_eq!(
        s,
        vec![
            Move::NONE,
            Move::A,
            Move::D,
            Move::W,
            Move::WA,
            Move::WD,
            Move::S,
            Move::SA,
            Move::SD
        ]
    );
}

// An explicit override replaces the mode's move list.
#[test]
fn all_moves_override() {
    let mut s = settings(GameMode::Platformer);
    s.allowed_moves = vec![Move::D, Move::WD];
    assert_eq!(Move::all(&s), vec![Move::D, Move::WD]);
}

#[test]
fn move_predicates() {
    assert!(Move::A.is_left());
    assert!(Move::WA.is_left());
    assert!(Move::SA.is_left());
    assert!(!Move::D.is_left());

    assert!(Move::D.is_right());
    assert!(Move::WD.is_right());
    assert!(Move::SD.is_right());
    assert!(!Move::A.is_right());

    assert!(Move::W.is_up());
    assert!(Move::WA.is_up());
    assert!(Move::WD.is_up());
    assert!(!Move::S.is_up());

    assert!(Move::S.is_down());
    assert!(Move::SA.is_down());
    assert!(Move::SD.is_down());
    assert!(!Move::W.is_down());

    assert!(Move::W.is_only_vertical());
    assert!(Move::S.is_only_vertical());
    assert!(!Move::WA.is_only_vertical());
    assert!(!Move::NONE.is_only_vertical());
}
