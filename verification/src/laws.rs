//! General properties of the game rules, each stated and proved over the
//! spec-level transitions of [`crate::game`]: the active body tracks the
//! score, the tick interval only falls and never below its floor, the body
//! records the head's trail, the snake never reverses in place, border
//! positions are still in bounds while one outward step ends the round, and
//! a chain of at most three cells cannot collide with itself.

use crate::game::{
    active_len, frame_step, move_tick, new_dir, self_hit, shifted_body, tick_fires, wf_view,
    GameView, Phase, BODY_CAP, MIN_INTERVAL,
};
use crate::geometry::{
    cells_overlap, dx, dy, in_bounds, moved_cell, opposite, Cell, Direction, ARENA_H, ARENA_W,
};
use vstd::prelude::*;

verus! {

/// The active body: the prefix of the body buffer that belongs to the
/// chain, of length [`active_len`].
pub open spec fn active_body(v: GameView) -> Seq<Cell> {
    v.body.take(active_len(v.score))
}

/// Cell `i` of the chain counted from the front: cell 0 is the head, cell
/// `i >= 1` is body slot `i - 1`.
pub open spec fn chain_cell(v: GameView, i: int) -> Cell {
    if i == 0 {
        v.head
    } else {
        v.body[i - 1]
    }
}

/// `to` lies exactly one movement step from `from`, in direction `d`.
pub open spec fn one_step(from: Cell, to: Cell, d: Direction) -> bool {
    to.x == from.x + dx(d) && to.y == from.y + dy(d)
}

/// The active body prefix is exactly as long as the score, for every score
/// the body buffer can hold in full.
pub proof fn lemma_active_body_length(v: GameView)
    requires
        wf_view(v),
        v.score < BODY_CAP as int,
    ensures
        active_body(v).len() == v.score,
{
}

/// Within a round, a frame never raises the tick interval, and the
/// interval stays at or above its floor.
pub proof fn lemma_interval_monotone(v: GameView, key: Option<Direction>)
    requires
        wf_view(v),
        v.phase == Phase::Playing,
    ensures
        MIN_INTERVAL <= frame_step(v, key).move_interval <= v.move_interval,
{
    crate::game::lemma_frame_step_preserves_wf(v, key);
}

/// After a frame whose movement tick fired, body slot 0 holds the head's
/// pre-move position.
pub proof fn lemma_body_front_is_prev_head(v: GameView, key: Option<Direction>)
    requires
        v.body.len() == BODY_CAP,
        tick_fires(v),
    ensures
        frame_step(v, key).body[0] == v.head,
{
}

/// The direction rule never yields the exact opposite of the direction it
/// started from, whatever key is reported.
pub proof fn lemma_no_reverse(cur: Direction, key: Option<Direction>)
    ensures
        new_dir(cur, key) != opposite(cur),
{
}

/// A head sitting exactly on the arena border is still in bounds.
pub proof fn lemma_border_is_in_bounds(c: Cell)
    requires
        0 <= c.x <= ARENA_W,
        0 <= c.y <= ARENA_H,
        c.x == 0 || c.x == ARENA_W || c.y == 0 || c.y == ARENA_H,
    ensures
        in_bounds(c),
{
}

/// One movement step outward from the border puts the head out of bounds
/// and ends the round.
pub proof fn lemma_outward_step_ends_round(v: GameView)
    requires
        wf_view(v),
        v.phase == Phase::Playing,
        (v.dir == Direction::Right && v.head.x == ARENA_W) || (v.dir == Direction::Left
            && v.head.x == 0) || (v.dir == Direction::Down && v.head.y == ARENA_H) || (v.dir
            == Direction::Up && v.head.y == 0),
    ensures
        !in_bounds(moved_cell(v.head, v.dir)),
        move_tick(v).phase == Phase::GameOver,
{
}

/// A cell one movement step away never overlaps where it came from: the
/// step is longer than a cell.
proof fn lemma_one_step_no_overlap(a: Cell, b: Cell, d: Direction)
    requires
        b.x == a.x + dx(d),
        b.y == a.y + dy(d),
    ensures
        !cells_overlap(b, a),
{
}

/// A cell two non-reversing movement steps away never overlaps where it
/// started.
proof fn lemma_two_steps_no_overlap(a: Cell, b: Cell, d1: Direction, d2: Direction)
    requires
        b.x == a.x + dx(d1) + dx(d2),
        b.y == a.y + dy(d1) + dy(d2),
        d2 != opposite(d1),
    ensures
        !cells_overlap(b, a),
{
}

/// A cell three movement steps away never overlaps where it started: an
/// odd number of steps cannot cancel out.
proof fn lemma_three_steps_no_overlap(a: Cell, b: Cell, d1: Direction, d2: Direction, d3: Direction)
    requires
        b.x == a.x + dx(d1) + dx(d2) + dx(d3),
        b.y == a.y + dy(d1) + dy(d2) + dy(d3),
    ensures
        !cells_overlap(b, a),
{
}

/// With an empty chain, a movement tick can only end the round at a wall:
/// no self-collision is possible at score zero.
pub proof fn lemma_no_self_collision_at_score_zero(v: GameView)
    requires
        wf_view(v),
        v.phase == Phase::Playing,
        v.score == 0,
    ensures
        move_tick(v).phase == Phase::GameOver <==> !in_bounds(moved_cell(v.head, v.dir)),
{
    let h2 = moved_cell(v.head, v.dir);
    let body2 = shifted_body(v.body, 0, v.head);
    assert(h2.x == v.head.x + dx(v.dir) && h2.y == v.head.y + dy(v.dir));
    assert(body2[0] == v.head);
    lemma_one_step_no_overlap(v.head, h2, v.dir);
    assert forall|i: int| 0 <= i < active_len(move_tick(v).score) implies !cells_overlap(
        h2,
        #[trigger] body2[i],
    ) by {
        assert(i == 0);
    }
    assert(!self_hit(h2, body2, active_len(move_tick(v).score)));
}

/// A chain of at most three cells is too short to bend back onto itself:
/// on a movement tick that does not eat, the round can end at a wall only.
///
/// `steps[0]` is this tick's move (the current direction); for `i >= 1`,
/// `steps[i]` is the move that carried the head from chain cell `i` to
/// chain cell `i - 1`, cell 0 being the head. Consecutive moves never
/// reverse, as the direction rule guarantees when at most one key is
/// reported per movement tick. A tick that eats is left out: its collision
/// scan also reads the first dormant slot beyond the chain, whose stale
/// contents are not part of the trail.
pub proof fn lemma_short_chain_no_self_collision(v: GameView, steps: Seq<Direction>)
    requires
        wf_view(v),
        v.phase == Phase::Playing,
        0 <= v.score <= 3,
        steps.len() == v.score + 1,
        steps[0] == v.dir,
        forall|i: int|
            1 <= i < steps.len() ==> one_step(
                chain_cell(v, i),
                chain_cell(v, i - 1),
                #[trigger] steps[i],
            ),
        forall|i: int| 0 <= i < steps.len() - 1 ==> #[trigger] steps[i] != opposite(steps[i + 1]),
        !cells_overlap(moved_cell(v.head, v.dir), v.berry),
    ensures
        !self_hit(
            moved_cell(v.head, v.dir),
            move_tick(v).body,
            active_len(move_tick(v).score),
        ),
        move_tick(v).phase == Phase::GameOver <==> !in_bounds(moved_cell(v.head, v.dir)),
{
    let h2 = moved_cell(v.head, v.dir);
    let n = active_len(v.score);
    let body2 = shifted_body(v.body, n, v.head);
    assert(h2.x == v.head.x + dx(v.dir) && h2.y == v.head.y + dy(v.dir));
    assert(move_tick(v).score == v.score);
    assert(move_tick(v).body == body2);
    assert forall|i: int| 0 <= i < n implies !cells_overlap(h2, #[trigger] body2[i]) by {
        assert(body2[i] == chain_cell(v, i));
        if i == 0 {
            lemma_one_step_no_overlap(v.head, h2, v.dir);
        } else if i == 1 {
            assert(one_step(chain_cell(v, 1), chain_cell(v, 0), steps[1]));
            assert(steps[0] != opposite(steps[1]));
            lemma_two_steps_no_overlap(chain_cell(v, 1), h2, steps[1], steps[0]);
        } else {
            assert(i == 2);
            assert(one_step(chain_cell(v, 2), chain_cell(v, 1), steps[2]));
            assert(one_step(chain_cell(v, 1), chain_cell(v, 0), steps[1]));
            lemma_three_steps_no_overlap(chain_cell(v, 2), h2, steps[2], steps[1], steps[0]);
        }
    }
    assert(!self_hit(h2, body2, active_len(move_tick(v).score)));
}

} // verus!
