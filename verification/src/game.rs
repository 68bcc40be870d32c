//! The authoritative game state and its update rules: the per-frame tick
//! cadence, the movement of the head and the trailing body, berry, wall and
//! self-collision resolution, and the retry reset.
//!
//! The model of a state is [`GameView`]; every mutating operation states its
//! result as a spec-level transition on views ([`frame_step`], [`init_view`],
//! [`with_berry`]), so a caller knows the post-state exactly. Randomly drawn
//! positions come in from outside as plain [`Cell`] arguments: the library
//! never draws them itself, so every function here is a deterministic
//! function of its inputs.

use crate::geometry::{
    cell_in_bounds, cells_overlap, in_bounds, in_spawn_range, moved_cell, opposite, overlaps,
    Cell, Direction, ARENA_H, ARENA_W, STEP,
};
use vstd::prelude::*;

verus! {

/// Number of slots in the body buffer. The chain itself never grows past
/// `BODY_CAP - 1` cells; the score keeps counting berries beyond that.
pub const BODY_CAP: usize = 256;

/// Tick interval at the start of a round: the head moves once every
/// `START_INTERVAL` display frames.
pub const START_INTERVAL: i32 = 10;

/// Smallest tick interval the game ever reaches; eating berries never
/// drives the cadence below it.
pub const MIN_INTERVAL: i32 = 4;

/// Whether the game is accepting movement or awaiting a retry.
#[derive(Clone, Copy, PartialEq, Eq, Structural, Debug)]
pub enum Phase {
    Playing,
    GameOver,
}

/// The mathematical model of a game state. Exec code holds a [`Game`];
/// contracts and proofs speak of its view, a `GameView`.
#[verifier::ext_equal]
pub struct GameView {
    pub head: Cell,
    pub berry: Cell,
    pub body: Seq<Cell>,
    pub dir: Direction,
    pub score: int,
    pub frame_count: int,
    pub move_interval: int,
    pub phase: Phase,
}

/// Length of the active body prefix for a given score: the chain is as long
/// as the score until the buffer would overflow, then stays one short of
/// the buffer so that every active slot exists.
pub open spec fn active_len(score: int) -> int {
    if score < BODY_CAP as int {
        score
    } else {
        BODY_CAP as int - 1
    }
}

/// The box the head can ever occupy: the arena plus at most one movement
/// step beyond it (the step that ended a round).
pub open spec fn near_arena(c: Cell) -> bool {
    &&& -(STEP as int) <= c.x <= ARENA_W + STEP
    &&& -(STEP as int) <= c.y <= ARENA_H + STEP
}

/// Well-formedness of a game state. Established by [`Game::new`] and
/// preserved by every operation.
pub open spec fn wf_view(v: GameView) -> bool {
    &&& v.body.len() == BODY_CAP
    &&& MIN_INTERVAL <= v.move_interval <= START_INTERVAL
    &&& 0 <= v.frame_count < v.move_interval
    &&& 0 <= v.score
    &&& in_spawn_range(v.berry)
    &&& near_arena(v.head)
    &&& (v.phase == Phase::Playing ==> in_bounds(v.head))
    &&& (forall|i: int| 0 <= i < v.body.len() ==> in_bounds(#[trigger] v.body[i]))
}

/// The direction after one key report: a requested direction is taken
/// unless it is the exact opposite of the current one, which is ignored;
/// a frame without a key leaves the direction unchanged.
pub open spec fn new_dir(cur: Direction, key: Option<Direction>) -> Direction {
    match key {
        Option::Some(k) => if k == opposite(cur) {
            cur
        } else {
            k
        },
        Option::None => cur,
    }
}

/// The body buffer after one movement tick: slot 0 takes the head's
/// pre-move position, slots `1 .. alen` each take their predecessor, and
/// slots past the active chain keep their old contents.
pub open spec fn shifted_body(body: Seq<Cell>, alen: int, prev: Cell) -> Seq<Cell> {
    Seq::new(
        body.len(),
        |i: int|
            if i == 0 {
                prev
            } else if i < alen {
                body[i - 1]
            } else {
                body[i]
            },
    )
}

/// Whether `head` overlaps one of the first `n` body slots.
pub open spec fn self_hit(head: Cell, body: Seq<Cell>, n: int) -> bool {
    exists|i: int| 0 <= i < n && cells_overlap(head, #[trigger] body[i])
}

/// One movement tick on a view whose tick counter was already reset: the
/// head advances one step, the body shifts behind it, a berry overlapped by
/// the new head scores and speeds the game up, and a head out of bounds or
/// on the body ends the round. The berry position itself is left to the
/// caller, who places the fresh draw with [`Game::place_berry`].
pub open spec fn move_tick(v: GameView) -> GameView {
    let head2 = moved_cell(v.head, v.dir);
    let body2 = shifted_body(v.body, active_len(v.score), v.head);
    let ate = cells_overlap(head2, v.berry);
    let score2 = if ate {
        v.score + 1
    } else {
        v.score
    };
    let interval2 = if ate && v.move_interval > MIN_INTERVAL {
        v.move_interval - 1
    } else {
        v.move_interval
    };
    let dead = !in_bounds(head2) || self_hit(head2, body2, active_len(score2));
    GameView {
        head: head2,
        berry: v.berry,
        body: body2,
        dir: v.dir,
        score: score2,
        frame_count: v.frame_count,
        move_interval: interval2,
        phase: if dead {
            Phase::GameOver
        } else {
            v.phase
        },
    }
}

/// Whether the tick counter reaches the interval on this frame, so that the
/// frame performs a movement tick.
pub open spec fn tick_fires(v: GameView) -> bool {
    v.frame_count + 1 >= v.move_interval
}

/// One display frame while playing: the tick counter advances, the key
/// report may turn the snake, and when the counter reaches the interval it
/// resets and a movement tick runs.
pub open spec fn frame_step(v: GameView, key: Option<Direction>) -> GameView {
    let d = new_dir(v.dir, key);
    if !tick_fires(v) {
        GameView {
            head: v.head,
            berry: v.berry,
            body: v.body,
            dir: d,
            score: v.score,
            frame_count: v.frame_count + 1,
            move_interval: v.move_interval,
            phase: v.phase,
        }
    } else {
        move_tick(
            GameView {
                head: v.head,
                berry: v.berry,
                body: v.body,
                dir: d,
                score: v.score,
                frame_count: 0,
                move_interval: v.move_interval,
                phase: v.phase,
            },
        )
    }
}

/// Whether the frame's movement tick lands the head on the berry, so that
/// the caller owes the state a fresh berry position.
pub open spec fn frame_eats(v: GameView, key: Option<Direction>) -> bool {
    tick_fires(v) && cells_overlap(moved_cell(v.head, new_dir(v.dir, key)), v.berry)
}

/// The state a round starts in: empty chain, direction right, full tick
/// interval, and the two freshly drawn positions.
pub open spec fn init_view(head: Cell, berry: Cell) -> GameView {
    GameView {
        head: head,
        berry: berry,
        body: Seq::new(BODY_CAP as nat, |i: int| Cell { x: 0, y: 0 }),
        dir: Direction::Right,
        score: 0,
        frame_count: 0,
        move_interval: START_INTERVAL as int,
        phase: Phase::Playing,
    }
}

/// `v` with its berry moved to `b` and everything else unchanged.
pub open spec fn with_berry(v: GameView, b: Cell) -> GameView {
    GameView {
        head: v.head,
        berry: b,
        body: v.body,
        dir: v.dir,
        score: v.score,
        frame_count: v.frame_count,
        move_interval: v.move_interval,
        phase: v.phase,
    }
}

/// The live game state: head, berry, trailing body buffer, direction,
/// score, tick cadence and phase.
pub struct Game {
    pub head: Cell,
    pub berry: Cell,
    pub body: Vec<Cell>,
    pub dir: Direction,
    pub score: usize,
    pub frame_count: i32,
    pub move_interval: i32,
    pub phase: Phase,
}

impl View for Game {
    type V = GameView;

    open spec fn view(&self) -> GameView {
        GameView {
            head: self.head,
            berry: self.berry,
            body: self.body@,
            dir: self.dir,
            score: self.score as int,
            frame_count: self.frame_count as int,
            move_interval: self.move_interval as int,
            phase: self.phase,
        }
    }
}

/// Applies one key report to the current direction: the request is ignored
/// exactly when it is the opposite of the current direction, so the snake
/// never reverses in place.
pub fn handle_direction(key: Option<Direction>, dir: &mut Direction)
    ensures
        *final(dir) == new_dir(*old(dir), key),
        *final(dir) != opposite(*old(dir)),
{
    match key {
        Option::Some(k) => {
            let opp = match *dir {
                Direction::Up => Direction::Down,
                Direction::Down => Direction::Up,
                Direction::Left => Direction::Right,
                Direction::Right => Direction::Left,
            };
            if k != opp {
                *dir = k;
            }
        },
        Option::None => {},
    }
}

impl Game {
    /// Well-formedness of the live state; see [`wf_view`].
    pub open spec fn wf(&self) -> bool {
        wf_view(self@)
    }

    /// Starts a fresh game from two drawn positions, one for the head and
    /// one for the berry.
    pub fn new(head: Cell, berry: Cell) -> (g: Game)
        requires
            in_spawn_range(head),
            in_spawn_range(berry),
        ensures
            g@ == init_view(head, berry),
            g.wf(),
    {
        let mut body: Vec<Cell> = Vec::new();
        let mut i: usize = 0;
        while i < BODY_CAP
            invariant
                i <= BODY_CAP,
                body@.len() == i as int,
                forall|j: int| 0 <= j < i as int ==> body@[j] == (Cell { x: 0, y: 0 }),
            decreases BODY_CAP - i,
        {
            body.push(Cell { x: 0, y: 0 });
            i += 1;
        }
        let g = Game {
            head,
            berry,
            body,
            dir: Direction::Right,
            score: 0,
            frame_count: 0,
            move_interval: START_INTERVAL,
            phase: Phase::Playing,
        };
        proof {
            assert(g@.body =~= init_view(head, berry).body);
            assert(g@ =~= init_view(head, berry));
        }
        g
    }

    /// Resets the state to a fresh round, from two newly drawn positions.
    /// The result is exactly the freshly initialized state, dormant body
    /// slots included.
    pub fn handle_retry(&mut self, head: Cell, berry: Cell)
        requires
            old(self)@.body.len() == BODY_CAP,
            in_spawn_range(head),
            in_spawn_range(berry),
        ensures
            final(self)@ == init_view(head, berry),
            final(self).wf(),
    {
        let mut i: usize = 0;
        while i < BODY_CAP
            invariant
                i <= BODY_CAP,
                self.body@.len() == BODY_CAP,
                forall|j: int| 0 <= j < i as int ==> self.body@[j] == (Cell { x: 0, y: 0 }),
            decreases BODY_CAP - i,
        {
            self.body.set(i, Cell { x: 0, y: 0 });
            i += 1;
        }
        self.score = 0;
        self.phase = Phase::Playing;
        self.head = head;
        self.berry = berry;
        self.move_interval = START_INTERVAL;
        self.frame_count = 0;
        self.dir = Direction::Right;
        proof {
            assert(self@.body =~= init_view(head, berry).body);
            assert(self@ =~= init_view(head, berry));
        }
    }

    /// Puts the berry at a freshly drawn position. The frame that reports a
    /// berry eaten leaves the old berry in place; the caller completes that
    /// movement tick by placing the new draw here.
    pub fn place_berry(&mut self, berry: Cell)
        requires
            in_spawn_range(berry),
        ensures
            final(self)@ == with_berry(old(self)@, berry),
            old(self).wf() ==> final(self).wf(),
    {
        self.berry = berry;
        proof {
            assert(self@ =~= with_berry(old(self)@, berry));
        }
    }

    /// Moves the head one step in the current direction and shifts the
    /// trailing body behind it; slot 0 takes the head's pre-move position.
    fn update_positions(&mut self)
        requires
            old(self)@.body.len() == BODY_CAP,
            in_bounds(old(self).head),
        ensures
            final(self).head == moved_cell(old(self).head, old(self).dir),
            final(self)@.body == shifted_body(
                old(self)@.body,
                active_len(old(self)@.score),
                old(self).head,
            ),
            final(self).berry == old(self).berry,
            final(self).dir == old(self).dir,
            final(self).score == old(self).score,
            final(self).frame_count == old(self).frame_count,
            final(self).move_interval == old(self).move_interval,
            final(self).phase == old(self).phase,
    {
        let prev = self.head;
        match self.dir {
            Direction::Up => self.head.y = self.head.y - STEP,
            Direction::Down => self.head.y = self.head.y + STEP,
            Direction::Left => self.head.x = self.head.x - STEP,
            Direction::Right => self.head.x = self.head.x + STEP,
        }
        let alen: usize = if self.score < BODY_CAP {
            self.score
        } else {
            BODY_CAP - 1
        };
        let mut n: usize = alen;
        while n > 1
            invariant
                n <= alen,
                alen == active_len(old(self)@.score),
                alen < BODY_CAP,
                self.body@.len() == BODY_CAP,
                forall|i: int| n <= i < alen ==> self.body@[i] == old(self)@.body[i - 1],
                forall|i: int|
                    (0 <= i < n || alen <= i < BODY_CAP as int) ==> self.body@[i] == old(
                        self,
                    )@.body[i],
                self.head == moved_cell(old(self).head, old(self).dir),
                self.berry == old(self).berry,
                self.dir == old(self).dir,
                self.score == old(self).score,
                self.frame_count == old(self).frame_count,
                self.move_interval == old(self).move_interval,
                self.phase == old(self).phase,
            decreases n,
        {
            n = n - 1;
            let c = self.body[n - 1];
            self.body.set(n, c);
        }
        self.body.set(0, prev);
        proof {
            assert(self@.body =~= shifted_body(
                old(self)@.body,
                active_len(old(self)@.score),
                old(self).head,
            ));
        }
    }

    /// Resolves a berry under the new head: the bite scores a point and,
    /// while the tick interval is above its floor, speeds the game up. The
    /// berry itself stays until the caller places the fresh draw.
    fn handle_eat_berry(&mut self) -> (ate: bool)
        requires
            old(self).score < usize::MAX,
        ensures
            ate == cells_overlap(old(self).head, old(self).berry),
            final(self).score == if ate {
                old(self).score + 1
            } else {
                old(self).score as int
            },
            final(self).move_interval == if ate && old(self).move_interval > MIN_INTERVAL {
                old(self).move_interval - 1
            } else {
                old(self).move_interval as int
            },
            final(self).head == old(self).head,
            final(self).berry == old(self).berry,
            final(self)@.body == old(self)@.body,
            final(self).dir == old(self).dir,
            final(self).frame_count == old(self).frame_count,
            final(self).phase == old(self).phase,
    {
        if overlaps(&self.head, &self.berry) {
            self.score = self.score + 1;
            if self.move_interval > MIN_INTERVAL {
                self.move_interval = self.move_interval - 1;
            }
            true
        } else {
            false
        }
    }

    /// Ends the round when the head has left the arena.
    fn handle_head_out_of_bounds(&mut self)
        ensures
            final(self).phase == if !in_bounds(old(self).head) {
                Phase::GameOver
            } else {
                old(self).phase
            },
            final(self).head == old(self).head,
            final(self).berry == old(self).berry,
            final(self)@.body == old(self)@.body,
            final(self).dir == old(self).dir,
            final(self).score == old(self).score,
            final(self).frame_count == old(self).frame_count,
            final(self).move_interval == old(self).move_interval,
    {
        if !cell_in_bounds(&self.head) {
            self.phase = Phase::GameOver;
        }
    }

    /// Whether the head overlaps any cell of the active body prefix.
    pub fn hits_body(&self) -> (r: bool)
        requires
            self@.body.len() == BODY_CAP,
        ensures
            r == self_hit(self.head, self@.body, active_len(self@.score)),
    {
        let alen: usize = if self.score < BODY_CAP {
            self.score
        } else {
            BODY_CAP - 1
        };
        let mut i: usize = 0;
        let mut hit = false;
        while i < alen
            invariant
                i <= alen,
                alen == active_len(self@.score),
                alen < BODY_CAP,
                self@.body.len() == BODY_CAP,
                hit == self_hit(self.head, self@.body, i as int),
            decreases alen - i,
        {
            let c = self.body[i];
            if overlaps(&self.head, &c) {
                hit = true;
                proof {
                    assert(cells_overlap(self.head, self@.body[i as int]));
                }
            }
            i += 1;
        }
        hit
    }

    /// One display frame while playing, per the tick update rule: the tick
    /// counter advances and the key report may turn the snake; when the
    /// counter reaches the interval, the head moves, the body shifts, and
    /// berry, wall and self-collision are resolved in that order, so a
    /// lethal bite still counts. Returns whether a berry was eaten, in
    /// which case the caller owes the state a [`Game::place_berry`] with a
    /// fresh draw.
    pub fn frame(&mut self, key: Option<Direction>) -> (ate: bool)
        requires
            old(self).wf(),
            old(self).phase == Phase::Playing,
            old(self).score < usize::MAX,
        ensures
            final(self)@ == frame_step(old(self)@, key),
            ate == frame_eats(old(self)@, key),
            final(self).wf(),
            final(self).move_interval <= old(self).move_interval,
            final(self).berry == old(self).berry,
    {
        proof {
            lemma_frame_step_preserves_wf(old(self)@, key);
        }
        self.frame_count = self.frame_count + 1;
        handle_direction(key, &mut self.dir);
        if self.frame_count < self.move_interval {
            proof {
                assert(self@ =~= frame_step(old(self)@, key));
            }
            return false;
        }
        self.frame_count = 0;
        self.update_positions();
        let ate = self.handle_eat_berry();
        self.handle_head_out_of_bounds();
        if self.hits_body() {
            self.phase = Phase::GameOver;
        }
        proof {
            assert(self@ =~= frame_step(old(self)@, key));
        }
        ate
    }

    /// Number of active body cells: as many as the score, capped one short
    /// of the buffer.
    pub fn active_len(&self) -> (n: usize)
        ensures
            n as int == active_len(self@.score),
    {
        if self.score < BODY_CAP {
            self.score
        } else {
            BODY_CAP - 1
        }
    }
}

/// A frame taken from a well-formed playing state leaves the state well
/// formed, never raises the tick interval, and leaves the berry in place.
pub proof fn lemma_frame_step_preserves_wf(v: GameView, key: Option<Direction>)
    requires
        wf_view(v),
        v.phase == Phase::Playing,
    ensures
        wf_view(frame_step(v, key)),
        frame_step(v, key).move_interval <= v.move_interval,
        frame_step(v, key).berry == v.berry,
{
    let d = new_dir(v.dir, key);
    if tick_fires(v) {
        let v1 = GameView {
            head: v.head,
            berry: v.berry,
            body: v.body,
            dir: d,
            score: v.score,
            frame_count: 0,
            move_interval: v.move_interval,
            phase: v.phase,
        };
        let r = move_tick(v1);
        assert forall|i: int| 0 <= i < r.body.len() implies in_bounds(#[trigger] r.body[i]) by {
            if i == 0 {
                assert(r.body[i] == v.head);
            } else if i < active_len(v.score) {
                assert(r.body[i] == v.body[i - 1]);
            } else {
                assert(r.body[i] == v.body[i]);
            }
        }
        assert(near_arena(r.head));
        assert(frame_step(v, key) == r);
    }
}

} // verus!
