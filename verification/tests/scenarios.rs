//! End-to-end scenarios: whole rounds driven frame by frame through the
//! public interface, with the randomly drawn positions chosen by the test.

use snake::game::{Game, Phase, START_INTERVAL};
use snake::geometry::{Cell, Direction};

fn cell(x: i32, y: i32) -> Cell {
    Cell { x, y }
}

/// A game whose state is chosen by the test rather than driven there.
fn game_with(
    head: Cell,
    berry: Cell,
    body_prefix: &[Cell],
    dir: Direction,
    score: usize,
    frame_count: i32,
) -> Game {
    let mut g = Game::new(cell(0, 0), berry);
    g.head = head;
    g.dir = dir;
    g.score = score;
    g.frame_count = frame_count;
    for (i, c) in body_prefix.iter().enumerate() {
        g.body[i] = *c;
    }
    g
}

#[test]
fn straight_line_death() {
    // Head starts at (100, 200), berry far away, RIGHT held. The 24th
    // movement tick carries the head to x = 100 + 24 * 21 = 604 > 600.
    let mut g = Game::new(cell(100, 200), cell(400, 100));
    for frame in 1..=240 {
        assert_eq!(g.phase, Phase::Playing, "died too early, frame {frame}");
        let ate = g.frame(Some(Direction::Right));
        assert!(!ate);
        assert_eq!(g.head.x, 100 + 21 * (frame / 10));
        if frame < 240 {
            assert_eq!(g.phase, Phase::Playing);
        }
    }
    assert_eq!(g.phase, Phase::GameOver);
    assert_eq!(g.head, cell(604, 200));
    assert_eq!(g.score, 0);
}

#[test]
fn first_berry() {
    // Head (100, 200), berry (142, 200), RIGHT held: the second movement
    // tick lands the head exactly on the berry.
    let mut g = Game::new(cell(100, 200), cell(142, 200));
    let mut eaten = 0;
    for frame in 1..=20 {
        let ate = g.frame(Some(Direction::Right));
        if ate {
            eaten += 1;
            assert_eq!(frame, 20);
        }
    }
    assert_eq!(eaten, 1);
    assert_eq!(g.head, cell(142, 200));
    assert_eq!(g.score, 1);
    assert_eq!(g.move_interval, 9);
    assert_eq!(g.phase, Phase::Playing);
    // The eaten berry stays until the fresh draw is placed.
    assert_eq!(g.berry, cell(142, 200));
    g.place_berry(cell(400, 100));
    assert_eq!(g.berry, cell(400, 100));
    // The body now trails the head: slot 0 holds the pre-move position.
    assert_eq!(g.body[0], cell(121, 200));
}

#[test]
fn illegal_reverse_ignored() {
    // Direction RIGHT, input LEFT: the direction stays RIGHT and the next
    // movement still goes 21 to the right.
    let mut g = Game::new(cell(100, 200), cell(400, 100));
    assert_eq!(g.dir, Direction::Right);
    for _ in 1..=10 {
        g.frame(Some(Direction::Left));
    }
    assert_eq!(g.dir, Direction::Right);
    assert_eq!(g.head, cell(121, 200));
}

#[test]
fn self_collision_minimum() {
    // Score 4, body bent in a U around the head: one RIGHT step lands the
    // head on body slot 3 (after the shift). The bite of the wall is not
    // involved and the score does not change.
    let mut g = game_with(
        cell(100, 200),
        cell(400, 100),
        &[cell(100, 221), cell(121, 221), cell(121, 200), cell(142, 200)],
        Direction::Right,
        4,
        9,
    );
    let ate = g.frame(None);
    assert!(!ate);
    assert_eq!(g.phase, Phase::GameOver);
    assert_eq!(g.score, 4);
    assert_eq!(g.head, cell(121, 200));
    assert_eq!(g.body[3], cell(121, 200));
}

#[test]
fn score_three_u_turn_is_safe() {
    // The same U with only three body cells: the cell the head lands on has
    // shifted out of the active prefix, so the snake survives.
    let mut g = game_with(
        cell(100, 200),
        cell(400, 100),
        &[cell(100, 221), cell(121, 221), cell(121, 200)],
        Direction::Right,
        3,
        9,
    );
    let ate = g.frame(None);
    assert!(!ate);
    assert_eq!(g.phase, Phase::Playing);
    assert_eq!(g.head, cell(121, 200));
}

#[test]
fn no_self_collision_at_score_zero() {
    // With an empty chain the snake cannot hit itself, whatever it does.
    let mut g = Game::new(cell(100, 200), cell(400, 100));
    let keys = [
        Some(Direction::Up),
        Some(Direction::Left),
        Some(Direction::Down),
        Some(Direction::Right),
    ];
    for round in 0..8 {
        for _ in 0..10 {
            g.frame(keys[round % 4]);
        }
        assert_eq!(g.phase, Phase::Playing);
        assert!(!g.hits_body());
    }
}

#[test]
fn retry_resets_to_fresh_state() {
    // From a game-over state with score 17, retry restores exactly the
    // freshly initialized game, up to the two newly drawn positions.
    let mut g = game_with(
        cell(300, 200),
        cell(400, 100),
        &[cell(300, 221); 17],
        Direction::Up,
        17,
        7,
    );
    g.phase = Phase::GameOver;
    g.move_interval = 4;
    g.handle_retry(cell(50, 60), cell(70, 80));

    assert_eq!(g.score, 0);
    assert_eq!(g.move_interval, START_INTERVAL);
    assert_eq!(g.dir, Direction::Right);
    assert_eq!(g.phase, Phase::Playing);
    assert_eq!(g.frame_count, 0);
    assert_eq!(g.head, cell(50, 60));
    assert_eq!(g.berry, cell(70, 80));

    let fresh = Game::new(cell(50, 60), cell(70, 80));
    assert_eq!(g.head, fresh.head);
    assert_eq!(g.berry, fresh.berry);
    assert_eq!(g.body, fresh.body);
    assert_eq!(g.dir, fresh.dir);
    assert_eq!(g.score, fresh.score);
    assert_eq!(g.frame_count, fresh.frame_count);
    assert_eq!(g.move_interval, fresh.move_interval);
    assert_eq!(g.phase, fresh.phase);
}

#[test]
fn speed_floor() {
    // Berries placed directly in the head's path: the interval falls by one
    // per berry until it reaches 4 and then stays there.
    let mut g = Game::new(cell(0, 200), cell(21, 200));
    let mut eaten: usize = 0;
    let mut frames: usize = 0;
    while eaten < 8 {
        frames += 1;
        assert!(frames < 1000, "scenario stalled");
        assert_eq!(g.phase, Phase::Playing);
        let before = g.move_interval;
        let ate = g.frame(None);
        assert!(g.move_interval <= before);
        if ate {
            eaten += 1;
            let expect = if eaten as i32 <= 6 { 10 - eaten as i32 } else { 4 };
            assert_eq!(g.move_interval, expect);
            assert_eq!(g.score, eaten);
            // The chain is exactly as long as the score.
            assert_eq!(g.active_len(), eaten);
            g.place_berry(cell(g.head.x + 21, 200));
        }
    }
    // Seven berries reach the floor of 4; the eighth keeps it there.
    assert_eq!(g.move_interval, 4);
    assert_eq!(g.score, 8);
}

#[test]
fn lethal_bite_still_counts() {
    // Berry resolution precedes the collision checks: a berry sitting under
    // the body cell the head runs into is still eaten, so the final bite
    // scores even though it ends the round.
    let mut g = game_with(
        cell(100, 200),
        cell(121, 200),
        &[cell(100, 221), cell(121, 221), cell(121, 200), cell(142, 200)],
        Direction::Right,
        4,
        9,
    );
    let ate = g.frame(None);
    assert!(ate);
    assert_eq!(g.head, cell(121, 200));
    assert_eq!(g.phase, Phase::GameOver);
    assert_eq!(g.score, 5);
    assert_eq!(g.move_interval, 9);
}

#[test]
fn replay_determinism() {
    // The same initial draws and the same per-frame keys give the same
    // sequence of (head, berry, score, phase) in two independent runs.
    let mut a = Game::new(cell(100, 200), cell(400, 100));
    let mut b = Game::new(cell(100, 200), cell(400, 100));
    let keys = [
        None,
        Some(Direction::Up),
        None,
        Some(Direction::Left),
        Some(Direction::Down),
        None,
    ];
    for frame in 0..60 {
        let key = keys[frame % keys.len()];
        let prev_head = a.head;
        let ate_a = a.frame(key);
        let ate_b = b.frame(key);
        assert_eq!(ate_a, ate_b);
        assert_eq!(a.head, b.head);
        assert_eq!(a.berry, b.berry);
        assert_eq!(a.score, b.score);
        assert_eq!(a.phase, b.phase);
        assert_eq!(a.body, b.body);
        assert_eq!(a.frame_count, b.frame_count);
        // Whenever a movement tick fired, slot 0 took the pre-move head.
        if a.head != prev_head {
            assert_eq!(a.body[0], prev_head);
        }
        if ate_a {
            a.place_berry(cell(450, 250));
            b.place_berry(cell(450, 250));
        }
    }
    assert_eq!(a.phase, Phase::Playing);
}
