//! Parallel-batch best-first search over the tick transition function.
//!
//! The engine keeps a frontier of discovered nodes ordered by f-score
//! (ticks so far plus weighted heuristic), a best-known-ticks map keyed
//! by state-equivalence class, and an append-only arena of parent
//! pointers.  Each round drains a batch from the frontier, expands every
//! batch node in parallel (the expansion only reads shared state), and
//! folds the candidate successors back into the bookkeeping in a single
//! sequential pass.
//!
//! The central guarantee: a returned route replays, tick by tick, from
//! the initial state to a state within the target precision, and no
//! state on it is dead.

use vstd::prelude::*;
use rayon::iter::{IntoParallelRefIterator, ParallelIterator};
use crate::geometry::abs;
use crate::moves::{allowed_moves_spec, Move};
use crate::physics::{PhysState, PLAYER_JUMP_SPEED, PLAYER_MOVEMENT_SPEED};
use crate::player::PlayerState;
use crate::rounding::ROUND_LIMIT;
use crate::settings::{GameMode, SearchSettings};
use crate::state_map::{key_view, map_entries, new_state_map, record_best, StateMap};
use crate::static_state::StaticState;

verus! {

/// The goal test's precision: 16 world units, in position steps.
pub const TARGET_PRECISION: i64 = 9600;

/// Largest tick count a node may carry; a search long enough to reach it
/// has long since exhausted any realistic timeout.
pub const TICK_CAP: usize = 1_000_000_000;

/// Hard cap on expansion rounds, the loop's termination measure; the
/// wall-clock timeout fires first in any practical run.
pub const MAX_ROUNDS: u64 = 1_000_000_000_000;

/// One frontier entry: the f-score priority, the tick count, and the
/// arena index of the state it refers to.
#[derive(Clone, Copy, Debug)]
pub struct SearchNode {
    pub fscore: i64,
    pub ticks: usize,
    pub idx: usize,
}

/// One batch entry handed to the parallel expansion: an arena index with
/// its tick count and a copy of the state stored there.
#[derive(Clone, Copy, Debug)]
pub struct BatchNode {
    pub idx: usize,
    pub ticks: usize,
    pub state: PhysState,
}

/// One successor produced by the expansion, before the sequential merge.
#[derive(Clone, Copy, Debug)]
pub struct Candidate {
    pub parent: usize,
    pub ticks: usize,
    pub fscore: i64,
    pub mov: Move,
    pub shift: bool,
    pub state: PhysState,
}

/// One parent-map record: the state reached, the arena index of its
/// predecessor (`None` only for the initial state at index 0), and the
/// input that produced it.
#[derive(Clone, Copy, Debug)]
pub struct ArenaEntry {
    pub state: PhysState,
    pub parent: Option<usize>,
    pub mov: Move,
    pub shift: bool,
}

/// The successor a search expansion produces: the step-up guard flag is
/// set to whether this tick's move steps up, then one tick is simulated.
pub open spec fn succ_spec(parent: PhysState, mov: Move, shift: bool, stat: StaticState) -> PhysState {
    PhysState { was_step_up_before: mov.is_up_spec(), ..parent }.tick_spec(mov, shift, stat)
}

/// The route replays from `s`: each record's player state is exactly the
/// player after one more simulated tick under that record's input.
pub open spec fn replay_ok(
    s: PhysState,
    route: Seq<(Move, bool, PlayerState)>,
    stat: StaticState,
) -> bool
    decreases route.len(),
{
    if route.len() == 0 {
        true
    } else {
        let n = succ_spec(s, route[0].0, route[0].1, stat);
        route[0].2 == n.player && replay_ok(n, route.skip(1), stat)
    }
}

/// The state a replay of the route from `s` ends in.
pub open spec fn replay_end(
    s: PhysState,
    route: Seq<(Move, bool, PlayerState)>,
    stat: StaticState,
) -> PhysState
    decreases route.len(),
{
    if route.len() == 0 {
        s
    } else {
        replay_end(succ_spec(s, route[0].0, route[0].1, stat), route.skip(1), stat)
    }
}

/// The shift-key values a configuration allows, in expansion order.
pub open spec fn shift_variants_spec(settings: SearchSettings) -> Seq<bool> {
    if settings.always_shift {
        seq![true]
    } else if settings.disable_shift {
        seq![false]
    } else {
        seq![false, true]
    }
}

/// A sound and legal candidate from expanding `item`: the exact
/// successor of the batch state under the recorded input, never dead,
/// well formed, one tick further, pointing back at the batch node's
/// arena slot; the input comes from the given move and shift lists,
/// respects the only-vertical shift rule, never repeats the batch
/// state's step-up, and stamps the successor's step-up guard.
pub open spec fn cand_ok(
    settings: SearchSettings,
    stat: StaticState,
    moves: Seq<Move>,
    shifts: Seq<bool>,
    item: BatchNode,
    c: Candidate,
) -> bool {
    &&& c.state == succ_spec(item.state, c.mov, c.shift, stat)
    &&& !c.state.player.dead
    &&& c.state.player.wf()
    &&& c.parent == item.idx
    &&& c.ticks == item.ticks + 1
    &&& c.ticks <= TICK_CAP
    &&& moves.contains(c.mov)
    &&& shifts.contains(c.shift)
    &&& !(!settings.always_shift && c.shift && c.mov.is_only_vertical_spec())
    &&& (c.mov.is_up_spec() ==> !item.state.was_step_up_before)
    &&& c.state.was_step_up_before == c.mov.is_up_spec()
}

/// Everything the expansion of one batch node emits is a sound, legal
/// candidate; in particular no dead successor is ever emitted.
pub open spec fn expand_post(
    settings: SearchSettings,
    stat: StaticState,
    moves: Seq<Move>,
    shifts: Seq<bool>,
    item: BatchNode,
    out: Seq<Candidate>,
) -> bool {
    forall|i: int|
        0 <= i < out.len() ==> cand_ok(settings, stat, moves, shifts, item, #[trigger] out[i])
}

/// The candidate (at most one) that a single move/shift pair
/// contributes when expanding `item` against the best-known map `g`:
/// nothing when the pair is illegal (an up-move after a step-up, or a
/// shift-held purely-vertical move without the always-shift policy),
/// when the simulated successor is dead, or when the map already knows
/// the successor's class at this tick count or better.
pub open spec fn expand_pair_spec(
    settings: SearchSettings,
    stat: StaticState,
    target: PhysState,
    g: Map<(int, int, int), int>,
    item: BatchNode,
    mv: Move,
    sh: bool,
) -> Seq<Candidate> {
    let blocked = (mv.is_up_spec() && item.state.was_step_up_before) || (!settings.always_shift
        && sh && mv.is_only_vertical_spec());
    if blocked {
        Seq::empty()
    } else {
        let n = succ_spec(item.state, mv, sh, stat);
        if n.player.dead {
            Seq::empty()
        } else {
            let nk = n.key_spec();
            if g.contains_key(nk) && item.ticks + 1 >= g[nk] {
                Seq::empty()
            } else {
                seq![
                    Candidate {
                        parent: item.idx,
                        ticks: (item.ticks + 1) as usize,
                        fscore: ((item.ticks + 1) * 1000 + heuristic_spec(
                            settings,
                            target.player,
                            n.player,
                        )) as i64,
                        mov: mv,
                        shift: sh,
                        state: n,
                    },
                ]
            }
        }
    }
}

/// The candidates of one move over the first `k` shift values, in order.
pub open spec fn expand_shifts_spec(
    settings: SearchSettings,
    stat: StaticState,
    target: PhysState,
    g: Map<(int, int, int), int>,
    item: BatchNode,
    mv: Move,
    shifts: Seq<bool>,
    k: int,
) -> Seq<Candidate>
    decreases k,
{
    if k <= 0 {
        Seq::empty()
    } else {
        expand_shifts_spec(settings, stat, target, g, item, mv, shifts, k - 1) + expand_pair_spec(
            settings,
            stat,
            target,
            g,
            item,
            mv,
            shifts[k - 1],
        )
    }
}

/// The candidates of the first `k` moves over all shift values.
pub open spec fn expand_moves_spec(
    settings: SearchSettings,
    stat: StaticState,
    target: PhysState,
    g: Map<(int, int, int), int>,
    item: BatchNode,
    moves: Seq<Move>,
    shifts: Seq<bool>,
    k: int,
) -> Seq<Candidate>
    decreases k,
{
    if k <= 0 {
        Seq::empty()
    } else {
        expand_moves_spec(settings, stat, target, g, item, moves, shifts, k - 1)
            + expand_shifts_spec(
            settings,
            stat,
            target,
            g,
            item,
            moves[k - 1],
            shifts,
            shifts.len() as int,
        )
    }
}

/// Exactly what expanding one batch node emits: nothing when the node's
/// tick count is at the cap or stale against the best-known map, else
/// every move/shift pair's contribution in expansion order.
pub open spec fn expand_spec(
    settings: SearchSettings,
    stat: StaticState,
    target: PhysState,
    g: Map<(int, int, int), int>,
    moves: Seq<Move>,
    shifts: Seq<bool>,
    item: BatchNode,
) -> Seq<Candidate> {
    if item.ticks >= TICK_CAP {
        Seq::empty()
    } else if g.contains_key(item.state.key_spec()) && g[item.state.key_spec()] < item.ticks {
        Seq::empty()
    } else {
        expand_moves_spec(settings, stat, target, g, item, moves, shifts, moves.len() as int)
    }
}

/// The successor of a search step carries the step-up guard of its own
/// move: it is stamped before the tick and the tick never changes it.
proof fn lemma_succ_flag(parent: PhysState, mov: Move, shift: bool, stat: StaticState)
    ensures
        succ_spec(parent, mov, shift, stat).was_step_up_before == mov.is_up_spec(),
{
    crate::physics::lemma_tick_keeps_flag(
        PhysState { was_step_up_before: mov.is_up_spec(), ..parent },
        mov,
        shift,
        stat,
    );
}

/// A well-formed parent arena: slot 0 holds the initial state, and every
/// later slot holds a non-dead, well-formed state that is the exact
/// successor of an earlier slot's state under a legal recorded input
/// (allowed move, policy-respecting shift, no repeated step-up).
pub open spec fn arena_ok(
    settings: SearchSettings,
    arena: Seq<ArenaEntry>,
    init: PhysState,
    stat: StaticState,
) -> bool {
    &&& arena.len() >= 1
    &&& arena[0].state == init
    &&& arena[0].parent is None
    &&& forall|i: int|
        1 <= i < arena.len() ==> ((#[trigger] arena[i]).parent matches Some(p) && p < i
            && arena[i].state == succ_spec(arena[p as int].state, arena[i].mov, arena[i].shift, stat)
            && !arena[i].state.player.dead && arena[i].state.player.wf()
            && allowed_moves_spec(settings).contains(arena[i].mov) && shift_variants_spec(
            settings,
        ).contains(arena[i].shift) && !(!settings.always_shift && arena[i].shift
            && arena[i].mov.is_only_vertical_spec()) && (arena[i].mov.is_up_spec() ==> !arena[
            p as int
        ].state.was_step_up_before) && arena[i].state.was_step_up_before
            == arena[i].mov.is_up_spec())
}

/// A legal route: every move comes from the configuration's candidate
/// set, every shift value respects the always/disable policy and the
/// only-vertical rule, no step-up move immediately follows another, and
/// the first move respects the initial state's step-up guard.
pub open spec fn route_legal(
    settings: SearchSettings,
    init: PhysState,
    route: Seq<(Move, bool, PlayerState)>,
) -> bool {
    &&& forall|i: int|
        0 <= i < route.len() ==> allowed_moves_spec(settings).contains((#[trigger] route[i]).0)
    &&& forall|i: int|
        0 <= i < route.len() ==> shift_variants_spec(settings).contains((#[trigger] route[i]).1)
    &&& forall|i: int|
        0 <= i < route.len() ==> !(!settings.always_shift && (#[trigger] route[i]).1
            && route[i].0.is_only_vertical_spec())
    &&& forall|i: int|
        1 <= i < route.len() ==> !((#[trigger] route[i]).0.is_up_spec()
            && route[i - 1].0.is_up_spec())
    &&& (route.len() > 0 && init.was_step_up_before ==> !route[0].0.is_up_spec())
}

/// Every frontier node points into the arena.
pub open spec fn frontier_ok(frontier: Seq<SearchNode>, arena_len: int) -> bool {
    forall|i: int| 0 <= i < frontier.len() ==> (#[trigger] frontier[i]).idx < arena_len
}

/// The tick lower-bound estimate to the target, in thousandths of a
/// tick: the larger of the per-axis estimates (distance over the best
/// per-tick travel of that axis), scaled by the heuristic weight.  The
/// horizontal divisor 2400 is the sprinting per-tick travel in position
/// steps (160 units/s times the 1.5 sprint factor over 60 ticks/s).
///
/// The estimate is quantized: integer division floors each axis estimate
/// to whole thousandths of a tick and floors the weighted product again,
/// so a weighted estimate under one thousandth of a tick is 0 — the
/// estimate vanishes at the target but also on positions within the
/// resolution floor of it.  It is intended as a non-overestimating bound
/// only for weights up to 1.0 (1000 thousandths); larger weights trade
/// optimality for speed and only steer the expansion order, which the
/// route guarantees never depend on.
pub open spec fn heuristic_spec(settings: SearchSettings, target: PlayerState, cur: PlayerState) -> int {
    let y_speed = if settings.mode == GameMode::Platformer {
        PLAYER_JUMP_SPEED as int
    } else {
        PLAYER_MOVEMENT_SPEED as int
    };
    let xticks = 1000 * abs(target.x - cur.x) / 2400;
    let yticks = 1000 * abs(target.y - cur.y) / y_speed;
    (if xticks >= yticks {
        xticks
    } else {
        yticks
    }) * settings.heuristic_weight_milli / 1000
}

/// `0 <= x <= b` implies `0 <= x / d <= b / d`.
proof fn lemma_div_bounds(x: int, d: int, b: int)
    requires
        0 <= x <= b,
        1 <= d,
    ensures
        0 <= x / d <= b / d,
{
    vstd::arithmetic::div_mod::lemma_div_is_ordered(0, x, d);
    vstd::arithmetic::div_mod::lemma_div_is_ordered(x, b, d);
    assert(0int / d == 0) by (nonlinear_arith)
        requires
            1 <= d,
    ;
}

/// The estimated remaining ticks in thousandths, weighted.
fn heuristic(settings: &SearchSettings, target_state: &PlayerState, current_state: &PlayerState) -> (r:
    i64)
    requires
        settings.wf(),
        target_state.wf(),
        current_state.wf(),
    ensures
        r as int == heuristic_spec(*settings, *target_state, *current_state),
        0 <= r <= 250_000_000_000_000,
{
    let y_speed = if matches!(settings.mode, GameMode::Platformer) {
        PLAYER_JUMP_SPEED
    } else {
        PLAYER_MOVEMENT_SPEED
    };
    let dx = target_state.x - current_state.x;
    let adx = if dx >= 0 {
        dx
    } else {
        -dx
    };
    let dy = target_state.y - current_state.y;
    let ady = if dy >= 0 {
        dy
    } else {
        -dy
    };
    proof {
        lemma_div_bounds(1000 * adx as int, 2400, 4_000_000_000_000_000);
        lemma_div_bounds(1000 * ady as int, y_speed as int, 4_000_000_000_000_000);
        assert(4_000_000_000_000_000int / 2400 <= 2_500_000_000_000);
        assert(4_000_000_000_000_000int / 1600 == 2_500_000_000_000);
        assert(4_000_000_000_000_000int / 3200 <= 2_500_000_000_000);
    }
    let xticks = 1000 * adx / 2400;
    let yticks = 1000 * ady / y_speed;
    let m = if xticks >= yticks {
        xticks
    } else {
        yticks
    };
    proof {
        lemma_mul_div_milli(m as int, settings.heuristic_weight_milli as int);
    }
    m * settings.heuristic_weight_milli / 1000
}

/// Bounds for scaling a tick estimate by the weight and dividing the
/// thousandths back out.
proof fn lemma_mul_div_milli(m: int, w: int)
    requires
        0 <= m <= 2_500_000_000_000,
        0 < w <= 100_000,
    ensures
        0 <= m * w <= 250_000_000_000_000_000,
        0 <= m * w / 1000 <= 250_000_000_000_000,
{
    assert(0 <= m * w <= 250_000_000_000_000_000) by (nonlinear_arith)
        requires
            0 <= m <= 2_500_000_000_000 && 0 < w <= 100_000,
    ;
    vstd::arithmetic::div_mod::lemma_div_is_ordered(0, m * w, 1000);
    vstd::arithmetic::div_mod::lemma_div_is_ordered(m * w, 250_000_000_000_000_000, 1000);
    assert(0int / 1000 == 0) by (nonlinear_arith)
        requires
            (1000int) >= 1,
    ;
    vstd::arithmetic::div_mod::lemma_div_multiples_vanish(250_000_000_000_000, 1000);
    assert(1000 * 250_000_000_000_000 == 250_000_000_000_000_000int);
}

/// Expand one batch node: try every allowed move and shift combination,
/// simulate one tick, and emit every surviving successor that is not
/// already dominated by the best-known map.  A node whose recorded tick
/// count is stale (the map knows better) emits nothing.  The output is
/// exactly `expand_spec` of the inputs: the expansion is forced, not
/// merely sound.
#[verifier::rlimit(100)]
fn expand_one(
    settings: &SearchSettings,
    stat: &StaticState,
    target: &PhysState,
    moves: &Vec<Move>,
    shifts: &Vec<bool>,
    g: &StateMap,
    item: &BatchNode,
) -> (out: Vec<Candidate>)
    requires
        settings.wf(),
        stat.wf(),
        target.player.wf(),
        item.state.player.wf(),
    ensures
        out@ == expand_spec(
            *settings,
            *stat,
            *target,
            map_entries(*g),
            moves@,
            shifts@,
            *item,
        ),
        expand_post(*settings, *stat, moves@, shifts@, *item, out@),
{
    let ghost ge = map_entries(*g);
    let mut out: Vec<Candidate> = Vec::new();
    if item.ticks >= TICK_CAP {
        proof {
            assert(out@ =~= expand_spec(*settings, *stat, *target, ge, moves@, shifts@, *item));
        }
        return out;
    }
    let k = item.state.state_key();
    if let Some(best) = g.get(k) {
        if best < item.ticks {
            proof {
                assert(out@ =~= expand_spec(*settings, *stat, *target, ge, moves@, shifts@, *item));
            }
            return out;
        }
    }
    let mut mi: usize = 0;
    proof {
        assert(out@ =~= expand_moves_spec(
            *settings,
            *stat,
            *target,
            ge,
            *item,
            moves@,
            shifts@,
            0,
        ));
    }
    while mi < moves.len()
        invariant
            settings.wf(),
            stat.wf(),
            target.player.wf(),
            item.state.player.wf(),
            item.ticks < TICK_CAP,
            ge == map_entries(*g),
            mi <= moves@.len(),
            out@ == expand_moves_spec(
                *settings,
                *stat,
                *target,
                ge,
                *item,
                moves@,
                shifts@,
                mi as int,
            ),
            expand_post(*settings, *stat, moves@, shifts@, *item, out@),
        decreases moves@.len() - mi,
    {
        let mv = moves[mi];
        let ghost prefix = out@;
        let mut si: usize = 0;
        proof {
            assert(out@ =~= prefix + expand_shifts_spec(
                *settings,
                *stat,
                *target,
                ge,
                *item,
                mv,
                shifts@,
                0,
            ));
        }
        while si < shifts.len()
            invariant
                settings.wf(),
                stat.wf(),
                target.player.wf(),
                item.state.player.wf(),
                item.ticks < TICK_CAP,
                ge == map_entries(*g),
                mi < moves@.len(),
                mv == moves@[mi as int],
                si <= shifts@.len(),
                out@ == prefix + expand_shifts_spec(
                    *settings,
                    *stat,
                    *target,
                    ge,
                    *item,
                    mv,
                    shifts@,
                    si as int,
                ),
                expand_post(*settings, *stat, moves@, shifts@, *item, out@),
            decreases shifts@.len() - si,
        {
            let ghost inner = expand_shifts_spec(
                *settings,
                *stat,
                *target,
                ge,
                *item,
                mv,
                shifts@,
                si as int,
            );
            let shift_pressed = shifts[si];
            let ghost pair = expand_pair_spec(
                *settings,
                *stat,
                *target,
                ge,
                *item,
                mv,
                shift_pressed,
            );
            let step_up_blocked = mv.is_up() && item.state.was_step_up_before;
            let shift_blocked = !settings.always_shift && shift_pressed && mv.is_only_vertical();
            if !step_up_blocked && !shift_blocked {
                let mut neighbor = item.state;
                neighbor.was_step_up_before = mv.is_up();
                neighbor.tick(mv, shift_pressed, stat, settings);
                proof {
                    assert(neighbor == succ_spec(item.state, mv, shift_pressed, *stat));
                    lemma_succ_flag(item.state, mv, shift_pressed, *stat);
                }
                if !neighbor.player.dead {
                    let nk = neighbor.state_key();
                    let mut dominated = false;
                    match g.get(nk) {
                        Some(old_ticks) => {
                            proof {
                                assert(ge.contains_key(key_view(nk)) && ge[key_view(nk)]
                                    == old_ticks as int);
                            }
                            if item.ticks + 1 >= old_ticks {
                                dominated = true;
                            }
                        },
                        None => {
                            proof {
                                assert(!ge.contains_key(key_view(nk)));
                            }
                        },
                    }
                    proof {
                        assert(key_view(nk) == neighbor.key_spec());
                        assert(dominated == (ge.contains_key(neighbor.key_spec()) && item.ticks + 1
                            >= ge[neighbor.key_spec()]));
                    }
                    if !dominated {
                        let f = ((item.ticks + 1) as i64) * 1000 + heuristic(
                            settings,
                            &target.player,
                            &neighbor.player,
                        );
                        let c = Candidate {
                            parent: item.idx,
                            ticks: item.ticks + 1,
                            fscore: f,
                            mov: mv,
                            shift: shift_pressed,
                            state: neighbor,
                        };
                        proof {
                            assert(pair =~= seq![c]);
                            assert(moves@.contains(mv)) by {
                                assert(moves@[mi as int] == mv);
                            }
                            assert(shifts@.contains(shift_pressed)) by {
                                assert(shifts@[si as int] == shift_pressed);
                            }
                            assert(cand_ok(*settings, *stat, moves@, shifts@, *item, c));
                        }
                        out.push(c);
                        proof {
                            assert(out@ =~= (prefix + inner) + pair);
                        }
                    }
                }
            }
            proof {
                assert(expand_shifts_spec(
                    *settings,
                    *stat,
                    *target,
                    ge,
                    *item,
                    mv,
                    shifts@,
                    si as int + 1,
                ) == inner + pair);
                if pair.len() == 0 {
                    assert(inner + pair =~= inner);
                }
                assert(prefix + (inner + pair) =~= (prefix + inner) + pair);
            }
            si = si + 1;
        }
        proof {
            assert(expand_moves_spec(
                *settings,
                *stat,
                *target,
                ge,
                *item,
                moves@,
                shifts@,
                mi as int + 1,
            ) == prefix + expand_shifts_spec(
                *settings,
                *stat,
                *target,
                ge,
                *item,
                mv,
                shifts@,
                shifts@.len() as int,
            ));
        }
        mi = mi + 1;
    }
    proof {
        assert(expand_spec(*settings, *stat, *target, ge, moves@, shifts@, *item)
            == expand_moves_spec(
            *settings,
            *stat,
            *target,
            ge,
            *item,
            moves@,
            shifts@,
            moves@.len() as int,
        ));
    }
    out
}

/// Relies on rayon's `par_iter().map(..).collect()`: applies the
/// verified expansion to every batch entry in a data-parallel map that
/// preserves order and only reads the shared borrows, and collects one
/// result per entry.  Each entry's result is exactly what `expand_one`
/// ensures of it: `expand_spec` of that batch entry.
#[verifier::external_body]
fn par_expand(
    batch: &Vec<BatchNode>,
    settings: &SearchSettings,
    stat: &StaticState,
    target: &PhysState,
    moves: &Vec<Move>,
    shifts: &Vec<bool>,
    g: &StateMap,
) -> (r: Vec<Vec<Candidate>>)
    requires
        settings.wf(),
        stat.wf(),
        target.player.wf(),
        forall|i: int| 0 <= i < batch@.len() ==> (#[trigger] batch@[i]).state.player.wf(),
    ensures
        r@.len() == batch@.len(),
        forall|i: int|
            0 <= i < batch@.len() ==> (#[trigger] r@[i])@ == expand_spec(
                *settings,
                *stat,
                *target,
                map_entries(*g),
                moves@,
                shifts@,
                batch@[i],
            ),
        forall|i: int|
            0 <= i < batch@.len() ==> expand_post(
                *settings,
                *stat,
                moves@,
                shifts@,
                batch@[i],
                (#[trigger] r@[i])@,
            ),
{
    batch.par_iter().map(|item| expand_one(settings, stat, target, moves, shifts, g, item)).collect()
}

/// Remove and return a frontier node of minimal f-score.
fn pop_min(frontier: &mut Vec<SearchNode>) -> (r: SearchNode)
    requires
        old(frontier)@.len() > 0,
    ensures
        old(frontier)@.contains(r),
        final(frontier)@.len() == old(frontier)@.len() - 1,
        forall|j: int|
            0 <= j < final(frontier)@.len() ==> old(frontier)@.contains(
                #[trigger] final(frontier)@[j],
            ),
        forall|j: int|
            0 <= j < old(frontier)@.len() ==> r.fscore <= (#[trigger] old(frontier)@[j]).fscore,
{
    let mut mi: usize = 0;
    let mut i: usize = 1;
    while i < frontier.len()
        invariant
            frontier@.len() > 0,
            mi < frontier@.len(),
            i <= frontier@.len(),
            forall|j: int|
                0 <= j < i ==> frontier@[mi as int].fscore <= (#[trigger] frontier@[j]).fscore,
        decreases frontier@.len() - i,
    {
        if frontier[i].fscore < frontier[mi].fscore {
            mi = i;
        }
        i = i + 1;
    }
    let r = frontier.swap_remove(mi);
    proof {
        assert(old(frontier)@[mi as int] == r);
        assert forall|j: int| 0 <= j < frontier@.len() implies old(frontier)@.contains(
            #[trigger] frontier@[j],
        ) by {
            if j == mi {
                assert(frontier@[j] == old(frontier)@[old(frontier)@.len() - 1]);
            } else {
                assert(frontier@[j] == old(frontier)@[j]);
            }
        }
    }
    r
}

/// Reversing after one more push puts the new record at the front.
proof fn lemma_reverse_push<T>(s: Seq<T>, t: T)
    ensures
        s.push(t).reverse() == seq![t] + s.reverse(),
{
    assert(s.push(t).reverse() =~= seq![t] + s.reverse());
}

/// Prepending one sound step to a replaying route keeps it replaying.
proof fn lemma_replay_cons(
    s: PhysState,
    t: (Move, bool, PlayerState),
    rest: Seq<(Move, bool, PlayerState)>,
    stat: StaticState,
)
    requires
        t.2 == succ_spec(s, t.0, t.1, stat).player,
        replay_ok(succ_spec(s, t.0, t.1, stat), rest, stat),
    ensures
        replay_ok(s, seq![t] + rest, stat),
        replay_end(s, seq![t] + rest, stat) == replay_end(succ_spec(s, t.0, t.1, stat), rest, stat),
{
    let full = seq![t] + rest;
    assert(full[0] == t);
    assert(full.skip(1) =~= rest);
}

/// Appending one sound step to a replaying route keeps it replaying and
/// moves the end state one successor further.
proof fn lemma_replay_snoc(
    s: PhysState,
    route: Seq<(Move, bool, PlayerState)>,
    t: (Move, bool, PlayerState),
    stat: StaticState,
)
    requires
        replay_ok(s, route, stat),
        t.2 == succ_spec(replay_end(s, route, stat), t.0, t.1, stat).player,
    ensures
        replay_ok(s, route.push(t), stat),
        replay_end(s, route.push(t), stat) == succ_spec(replay_end(s, route, stat), t.0, t.1, stat),
    decreases route.len(),
{
    if route.len() == 0 {
        let full = route.push(t);
        let n = succ_spec(s, t.0, t.1, stat);
        assert(full[0] == t);
        assert(full.skip(1) =~= Seq::<(Move, bool, PlayerState)>::empty());
        assert(replay_ok(n, full.skip(1), stat));
        assert(replay_end(n, full.skip(1), stat) == n);
    } else {
        let n = succ_spec(s, route[0].0, route[0].1, stat);
        assert(replay_end(s, route, stat) == replay_end(n, route.skip(1), stat));
        lemma_replay_snoc(n, route.skip(1), t, stat);
        let full = route.push(t);
        assert(full[0] == route[0]);
        assert(full.skip(1) =~= route.skip(1).push(t));
        assert(replay_ok(n, full.skip(1), stat));
    }
}

/// Walk the parent arena from `idx` back to the initial state at slot 0
/// and return the chronological route to `idx`'s state.  The route is
/// legal (arena entries record only legal inputs) and its last record,
/// when there is one, is entry `idx`'s own.
#[verifier::rlimit(100)]
fn reconstruct_path(
    arena: &Vec<ArenaEntry>,
    idx: usize,
    settings: &SearchSettings,
    stat: &StaticState,
) -> (r: Vec<(Move, bool, PlayerState)>)
    requires
        arena_ok(*settings, arena@, arena@[0].state, *stat),
        idx < arena@.len(),
    ensures
        replay_ok(arena@[0].state, r@, *stat),
        replay_end(arena@[0].state, r@, *stat) == arena@[idx as int].state,
        forall|i: int| 0 <= i < r@.len() ==> !(#[trigger] r@[i]).2.dead,
        route_legal(*settings, arena@[0].state, r@),
        idx == 0 ==> r@.len() == 0,
        idx != 0 ==> r@.len() > 0 && r@[r@.len() - 1] == (
            arena@[idx as int].mov,
            arena@[idx as int].shift,
            arena@[idx as int].state.player,
        ),
{
    let mut path: Vec<(Move, bool, PlayerState)> = Vec::new();
    let mut cur = idx;
    loop
        invariant
            arena_ok(*settings, arena@, arena@[0].state, *stat),
            cur < arena@.len(),
            replay_ok(arena@[cur as int].state, path@.reverse(), *stat),
            replay_end(arena@[cur as int].state, path@.reverse(), *stat) == arena@[idx as int].state,
            forall|i: int| 0 <= i < path@.len() ==> !(#[trigger] path@[i]).2.dead,
            forall|i: int|
                0 <= i < path@.len() ==> allowed_moves_spec(*settings).contains(
                    (#[trigger] path@[i]).0,
                ) && shift_variants_spec(*settings).contains(path@[i].1) && !(!settings.always_shift
                    && path@[i].1 && path@[i].0.is_only_vertical_spec()),
            forall|i: int|
                0 <= i && i + 1 < path@.len() ==> !((#[trigger] path@[i]).0.is_up_spec() && path@[i
                    + 1].0.is_up_spec()),
            path@.len() > 0 ==> (path@[path@.len() - 1].0.is_up_spec() ==> !arena@[
                cur as int
            ].state.was_step_up_before),
            path@.len() == 0 ==> cur == idx,
            path@.len() > 0 ==> idx >= 1 && path@[0] == (
                arena@[idx as int].mov,
                arena@[idx as int].shift,
                arena@[idx as int].state.player,
            ),
        ensures
            cur == 0,
            replay_ok(arena@[0].state, path@.reverse(), *stat),
            replay_end(arena@[0].state, path@.reverse(), *stat) == arena@[idx as int].state,
            forall|i: int| 0 <= i < path@.len() ==> !(#[trigger] path@[i]).2.dead,
            forall|i: int|
                0 <= i < path@.len() ==> allowed_moves_spec(*settings).contains(
                    (#[trigger] path@[i]).0,
                ) && shift_variants_spec(*settings).contains(path@[i].1) && !(!settings.always_shift
                    && path@[i].1 && path@[i].0.is_only_vertical_spec()),
            forall|i: int|
                0 <= i && i + 1 < path@.len() ==> !((#[trigger] path@[i]).0.is_up_spec() && path@[i
                    + 1].0.is_up_spec()),
            path@.len() > 0 ==> (path@[path@.len() - 1].0.is_up_spec() ==> !arena@[
                0
            ].state.was_step_up_before),
            path@.len() == 0 ==> idx == 0,
            path@.len() > 0 ==> idx >= 1 && path@[0] == (
                arena@[idx as int].mov,
                arena@[idx as int].shift,
                arena@[idx as int].state.player,
            ),
        decreases cur,
    {
        let e = arena[cur];
        match e.parent {
            Some(p) => {
                proof {
                    assert(cur != 0);
                }
                let t = (e.mov, e.shift, e.state.player);
                proof {
                    lemma_reverse_push(path@, t);
                    lemma_replay_cons(arena@[p as int].state, t, path@.reverse(), *stat);
                    let np = path@.push(t);
                    assert forall|i: int|
                        0 <= i && i + 1 < np.len() implies !((#[trigger] np[i]).0.is_up_spec()
                        && np[i + 1].0.is_up_spec()) by {
                        if i + 1 < path@.len() {
                            assert(np[i] == path@[i] && np[i + 1] == path@[i + 1]);
                        } else {
                            assert(i + 1 == path@.len());
                            assert(np[i + 1] == t);
                            assert(np[i] == path@[i]);
                            assert(arena@[cur as int].state.was_step_up_before == arena@[
                                cur as int
                            ].mov.is_up_spec());
                        }
                    }
                    assert forall|i: int|
                        0 <= i < np.len() implies allowed_moves_spec(*settings).contains(
                        (#[trigger] np[i]).0,
                    ) && shift_variants_spec(*settings).contains(np[i].1) && !(
                    !settings.always_shift && np[i].1 && np[i].0.is_only_vertical_spec())
                        && !np[i].2.dead by {
                        if i < path@.len() {
                            assert(np[i] == path@[i]);
                        } else {
                            assert(np[i] == t);
                        }
                    }
                }
                path.push(t);
                cur = p;
            },
            None => {
                proof {
                    assert(cur == 0);
                }
                break ;
            },
        }
    }
    let mut out: Vec<(Move, bool, PlayerState)> = Vec::new();
    let mut j: usize = path.len();
    while j > 0
        invariant
            j <= path@.len(),
            out@.len() == path@.len() - j,
            forall|k: int|
                0 <= k < out@.len() ==> #[trigger] out@[k] == path@[path@.len() - 1 - k],
        decreases j,
    {
        j = j - 1;
        out.push(path[j]);
    }
    proof {
        assert(out@ =~= path@.reverse());
        let n = path@.len() as int;
        assert forall|i: int| 0 <= i < out@.len() implies allowed_moves_spec(*settings).contains(
            (#[trigger] out@[i]).0,
        ) && shift_variants_spec(*settings).contains(out@[i].1) && !(!settings.always_shift
            && out@[i].1 && out@[i].0.is_only_vertical_spec()) by {
            assert(out@[i] == path@[n - 1 - i]);
        }
        assert forall|i: int| 1 <= i < out@.len() implies !((#[trigger] out@[i]).0.is_up_spec()
            && out@[i - 1].0.is_up_spec()) by {
            assert(out@[i] == path@[n - 1 - i]);
            assert(out@[i - 1] == path@[n - i]);
            assert(!(path@[n - 1 - i].0.is_up_spec() && path@[n - i].0.is_up_spec()));
        }
        if out@.len() > 0 {
            assert(out@[0] == path@[n - 1]);
            assert(out@[out@.len() - 1] == path@[0]);
        }
    }
    out
}

/// Best-first search for a minimal-tick input sequence from the initial
/// state to within `TARGET_PRECISION` of the target state.
///
/// A returned route is never empty (the goal test only ever sees
/// successors, so at least one tick is always simulated), replays tick
/// by tick from the initial state under `succ_spec` — each record
/// carrying exactly the player state its tick produces — ends within the
/// target precision, and contains no dead state.  Timeout and frontier
/// exhaustion are normal "not found" outcomes, never an error.
#[verifier::rlimit(100)]
pub fn astar_search(
    settings: SearchSettings,
    initial_state: PhysState,
    target_state: PhysState,
    static_state: StaticState,
) -> (r: Option<Vec<(Move, bool, PlayerState)>>)
    requires
        settings.wf(),
        static_state.wf(),
        initial_state.player.wf(),
        target_state.player.wf(),
    ensures
        r matches Some(route) ==> route@.len() >= 1 && replay_ok(
            initial_state,
            route@,
            static_state,
        ) && replay_end(initial_state, route@, static_state).close_enough_spec(
            target_state,
            TARGET_PRECISION as int,
        ) && (forall|i: int| 0 <= i < route@.len() ==> !(#[trigger] route@[i]).2.dead)
            && route_legal(settings, initial_state, route@),
{
    let mut frontier: Vec<SearchNode> = Vec::new();
    let mut arena: Vec<ArenaEntry> = Vec::new();
    let mut g_score = new_state_map();
    arena.push(
        ArenaEntry { state: initial_state, parent: None, mov: Move::NONE, shift: false },
    );
    let h0 = heuristic(&settings, &target_state.player, &initial_state.player);
    frontier.push(SearchNode { fscore: h0, ticks: 0, idx: 0 });
    record_best(&mut g_score, initial_state.state_key(), 0);

    let mut shift_variants: Vec<bool> = Vec::new();
    if settings.always_shift {
        shift_variants.push(true);
        proof {
            assert(shift_variants@ =~= shift_variants_spec(settings));
        }
    } else if settings.disable_shift {
        shift_variants.push(false);
        proof {
            assert(shift_variants@ =~= shift_variants_spec(settings));
        }
    } else {
        shift_variants.push(false);
        shift_variants.push(true);
        proof {
            assert(shift_variants@ =~= shift_variants_spec(settings));
        }
    }
    let allowed_moves = Move::all(&settings);

    let start = crate::clock::now_instant();
    let mut rounds: u64 = 0;
    let mut give_up = false;

    while !give_up && rounds < MAX_ROUNDS
        invariant
            settings.wf(),
            static_state.wf(),
            initial_state.player.wf(),
            target_state.player.wf(),
            arena_ok(settings, arena@, initial_state, static_state),
            arena@[0].state == initial_state,
            frontier_ok(frontier@, arena@.len() as int),
            allowed_moves@ == allowed_moves_spec(settings),
            shift_variants@ == shift_variants_spec(settings),
        decreases MAX_ROUNDS - rounds,
    {
        rounds = rounds + 1;
        if crate::clock::elapsed_secs(&start) > settings.timeout_secs {
            give_up = true;
        } else {
            let mut to_process: Vec<BatchNode> = Vec::new();
            while to_process.len() < settings.state_batch_size && frontier.len() > 0
                invariant
                    initial_state.player.wf(),
                    arena_ok(settings, arena@, initial_state, static_state),
                    arena@[0].state == initial_state,
                    frontier_ok(frontier@, arena@.len() as int),
                    forall|bi: int|
                        0 <= bi < to_process@.len() ==> (#[trigger] to_process@[bi]).idx
                            < arena@.len() && to_process@[bi].state == arena@[to_process@[
                            bi
                        ].idx as int].state && to_process@[bi].state.player.wf(),
                decreases frontier@.len(),
            {
                let node = pop_min(&mut frontier);
                let st = arena[node.idx].state;
                proof {
                    if node.idx != 0 {
                        assert(arena@[node.idx as int].state.player.wf());
                    }
                }
                to_process.push(BatchNode { idx: node.idx, ticks: node.ticks, state: st });
            }
            if to_process.len() == 0 {
                give_up = true;
            } else {
                let next_states = par_expand(
                    &to_process,
                    &settings,
                    &static_state,
                    &target_state,
                    &allowed_moves,
                    &shift_variants,
                    &g_score,
                );
                let mut ni: usize = 0;
                while ni < next_states.len()
                    invariant
                        settings.wf(),
                        static_state.wf(),
                        initial_state.player.wf(),
                        target_state.player.wf(),
                        arena_ok(settings, arena@, initial_state, static_state),
                        arena@[0].state == initial_state,
                        frontier_ok(frontier@, arena@.len() as int),
                        allowed_moves@ == allowed_moves_spec(settings),
                        shift_variants@ == shift_variants_spec(settings),
                        ni <= next_states@.len(),
                        next_states@.len() == to_process@.len(),
                        forall|bi: int|
                            0 <= bi < to_process@.len() ==> (#[trigger] to_process@[bi]).idx
                                < arena@.len() && to_process@[bi].state == arena@[to_process@[
                                bi
                            ].idx as int].state,
                        forall|bi: int|
                            0 <= bi < next_states@.len() ==> expand_post(
                                settings,
                                static_state,
                                allowed_moves@,
                                shift_variants@,
                                to_process@[bi],
                                (#[trigger] next_states@[bi])@,
                            ),
                    decreases next_states@.len() - ni,
                {
                    let cands = &next_states[ni];
                    let mut ci: usize = 0;
                    while ci < cands.len()
                        invariant
                            settings.wf(),
                            static_state.wf(),
                            initial_state.player.wf(),
                            target_state.player.wf(),
                            arena_ok(settings, arena@, initial_state, static_state),
                            arena@[0].state == initial_state,
                            frontier_ok(frontier@, arena@.len() as int),
                            allowed_moves@ == allowed_moves_spec(settings),
                            shift_variants@ == shift_variants_spec(settings),
                            ni < next_states@.len(),
                            next_states@.len() == to_process@.len(),
                            ci <= cands@.len(),
                            cands@ == next_states@[ni as int]@,
                            forall|bi: int|
                                0 <= bi < to_process@.len() ==> (#[trigger] to_process@[bi]).idx
                                    < arena@.len() && to_process@[bi].state == arena@[to_process@[
                                    bi
                                ].idx as int].state,
                            expand_post(
                                settings,
                                static_state,
                                allowed_moves@,
                                shift_variants@,
                                to_process@[ni as int],
                                cands@,
                            ),
                        decreases cands@.len() - ci,
                    {
                        let c = cands[ci];
                        proof {
                            assert(cand_ok(
                                settings,
                                static_state,
                                allowed_moves@,
                                shift_variants@,
                                to_process@[ni as int],
                                c,
                            ));
                        }
                        if c.state.close_enough(&target_state, TARGET_PRECISION) {
                            let mut route = reconstruct_path(
                                &arena,
                                c.parent,
                                &settings,
                                &static_state,
                            );
                            let t = (c.mov, c.shift, c.state.player);
                            proof {
                                lemma_replay_snoc(arena@[0].state, route@, t, static_state);
                                let full = route@.push(t);
                                assert forall|i: int|
                                    0 <= i < full.len() implies allowed_moves_spec(
                                    settings,
                                ).contains((#[trigger] full[i]).0) && shift_variants_spec(
                                    settings,
                                ).contains(full[i].1) && !(!settings.always_shift && full[i].1
                                    && full[i].0.is_only_vertical_spec()) by {
                                    if i < route@.len() {
                                        assert(full[i] == route@[i]);
                                    } else {
                                        assert(full[i] == t);
                                    }
                                }
                                assert forall|i: int|
                                    1 <= i < full.len() implies !((#[trigger] full[
                                    i
                                ]).0.is_up_spec() && full[i - 1].0.is_up_spec()) by {
                                    if i < route@.len() {
                                        assert(full[i] == route@[i] && full[i - 1] == route@[i
                                            - 1]);
                                    } else {
                                        assert(full[i] == t);
                                        assert(route@.len() > 0);
                                        assert(full[i - 1] == route@[route@.len() - 1]);
                                        assert(c.parent >= 1);
                                        assert(route@[route@.len() - 1].0 == arena@[
                                            c.parent as int
                                        ].mov);
                                        assert(arena@[c.parent as int].state.was_step_up_before
                                            == arena@[c.parent as int].mov.is_up_spec());
                                        assert(c.mov.is_up_spec() ==> !arena@[
                                            c.parent as int
                                        ].state.was_step_up_before);
                                    }
                                }
                                if route@.len() == 0 {
                                    assert(c.parent == 0);
                                    assert(full[0] == t);
                                } else {
                                    assert(full[0] == route@[0]);
                                }
                                assert(route_legal(settings, initial_state, full));
                            }
                            route.push(t);
                            return Some(route);
                        }
                        let nk = c.state.state_key();
                        let updated = record_best(&mut g_score, nk, c.ticks);
                        if updated {
                            arena.push(
                                ArenaEntry {
                                    state: c.state,
                                    parent: Some(c.parent),
                                    mov: c.mov,
                                    shift: c.shift,
                                },
                            );
                            let new_idx = arena.len() - 1;
                            frontier.push(
                                SearchNode { fscore: c.fscore, ticks: c.ticks, idx: new_idx },
                            );
                        }
                        ci = ci + 1;
                    }
                    ni = ni + 1;
                }
            }
        }
    }
    None
}

} // verus!
