use ledwall::{Config, Das, DasState, FrameInput, Game, InputState, Pos, Tetromino};
use rand::SeedableRng;
use rand::rngs::SmallRng;

/// A fresh game whose first falling piece has the requested kind, found by
/// scanning seeds of the deterministic generator.
fn game_starting_with(config: Config, kind: Tetromino) -> Game {
    let mut seed = 0u64;
    loop {
        let game = Game::new(config, 0, SmallRng::seed_from_u64(seed));
        if game.falling_piece().piece == kind {
            return game;
        }
        seed += 1;
        assert!(seed < 1000, "no seed yields the requested first piece");
    }
}

#[test]
fn hard_drop_lands_i_piece_on_the_floor() {
    // Empty 10x20 playfield with buffer 20, I piece spawned at (4, 20).
    let config = Config::default();
    assert_eq!(config.width, 10);
    assert_eq!(config.height, 20);
    assert_eq!(config.buffer_height, 20);
    assert_eq!(config.spawn_pos, Pos { x: 4, y: 20 });
    let mut game = game_starting_with(config, Tetromino::I);

    let out = game
        .step(1, FrameInput { hard_drop: true, ..Default::default() })
        .expect("game is active");

    // The outcome reports the pre-drop location.
    let pre_drop = out.hard_drop.expect("hard drop was requested").expect("drop succeeds");
    assert_eq!(pre_drop.pos, Pos { x: 4, y: 20 });
    assert_eq!(pre_drop.piece, Tetromino::I);

    // The piece locked on the floor row.
    let locked = out.locked_piece.expect("a piece locked this frame");
    assert_eq!(locked.pos, Pos { x: 4, y: 0 });

    // Row 0 now holds 4 I cells at columns 3..=6 and nothing else.
    for x in 0..10i8 {
        let cell = game.playfield().get(Pos { x, y: 0 }).expect("in bounds");
        if (3..=6).contains(&x) {
            assert_eq!(cell, Some(Tetromino::I));
        } else {
            assert_eq!(cell, None);
        }
    }

    // Four cells do not fill a row of width 10.
    assert!(out.rows_cleared.is_none());
}

#[test]
fn row_clear_is_deferred_by_one_step() {
    // Width 3: a T piece dropped flat fills row 0 exactly, leaving one
    // block in row 1.
    let config = Config {
        width: 3,
        height: 6,
        buffer_height: 4,
        spawn_pos: Pos { x: 1, y: 5 },
        das: None,
        ..Default::default()
    };
    let mut game = game_starting_with(config, Tetromino::T);

    let out = game
        .step(1, FrameInput { hard_drop: true, ..Default::default() })
        .expect("game is active");
    assert!(out.hard_drop.expect("requested").is_ok());
    // The clear is computed before the lock, so nothing is reported yet.
    assert!(out.rows_cleared.is_none());
    // Row 0 is now full.
    for x in 0..3i8 {
        assert!(game.playfield().get(Pos { x, y: 0 }).unwrap().is_some());
    }

    // The next step reports the clear but still shows the full row.
    let out = game.step(1, FrameInput::default()).expect("game is active");
    assert_eq!(out.rows_cleared, Some(vec![0]));
    assert!(game.playfield().get(Pos { x: 0, y: 0 }).unwrap().is_some());

    // The step after that deletes the row: row 0 becomes what was row 1
    // (a single block under the T's stem at x = 1).
    let out = game.step(1, FrameInput::default()).expect("game is active");
    assert!(out.rows_cleared.is_none());
    assert_eq!(game.playfield().get(Pos { x: 0, y: 0 }).unwrap(), None);
    assert_eq!(game.playfield().get(Pos { x: 1, y: 0 }).unwrap(), Some(Tetromino::T));
    assert_eq!(game.playfield().get(Pos { x: 2, y: 0 }).unwrap(), None);
}

#[test]
fn rotation_blocked_when_no_kick_fits() {
    // A J piece in a 3x2 box: the clockwise rotation needs three rows,
    // and none of its five kick candidates can make room.
    let config = Config {
        width: 3,
        height: 2,
        buffer_height: 0,
        spawn_pos: Pos { x: 1, y: 0 },
        das: None,
        ..Default::default()
    };
    let mut game = game_starting_with(config, Tetromino::J);
    let before = game.falling_piece();

    let result = game.rotate_cw();

    assert!(result.is_err());
    assert_eq!(game.falling_piece(), before);
}

#[test]
fn blocked_spawn_ends_the_game_permanently() {
    // A spawn anchor outside the playfield leaves no legal position for
    // any kind: the game is over from the start.
    let config = Config {
        spawn_pos: Pos { x: -2, y: 5 },
        ..Default::default()
    };
    let mut game = Game::new(config, 0, SmallRng::seed_from_u64(0));

    assert!(game.ghost_piece_pos().is_none());
    for _ in 0..3 {
        assert!(game.step(1, FrameInput::default()).is_err());
    }
}

#[test]
fn failed_moves_leave_the_state_unchanged() {
    let config = Config::default();
    let mut game = Game::new(config, 0, SmallRng::seed_from_u64(3));

    // Walk the piece into the left wall; eventually a move fails.
    let mut blocked = false;
    for _ in 0..12 {
        let before = game.falling_piece();
        if game.move_left().is_err() {
            assert_eq!(game.falling_piece(), before);
            blocked = true;
            break;
        }
    }
    assert!(blocked, "a move into the wall must eventually be blocked");
}

#[test]
fn hold_swaps_once_then_fails_until_lock() {
    let config = Config::default();
    let mut game = Game::new(config, 0, SmallRng::seed_from_u64(5));
    assert_eq!(game.held_piece(), None);
    let first = game.falling_piece().piece;

    assert!(game.hold().is_ok());
    assert_eq!(game.held_piece(), Some(first));
    assert_eq!(game.falling_piece().pos, config.spawn_pos);

    // A second hold before any lock fails and changes nothing.
    let before_falling = game.falling_piece();
    assert!(game.hold().is_err());
    assert_eq!(game.held_piece(), Some(first));
    assert_eq!(game.falling_piece(), before_falling);

    // After a lock the hold becomes available again and evicts the held
    // kind back into play.
    assert!(game.hard_drop().is_ok());
    assert!(game.hold().is_ok());
    assert_eq!(game.falling_piece().piece, first);
}

#[test]
fn das_timing_fires_at_delay_then_at_rate() {
    let das = Some(Das { delay: 3, arr: 2 });
    let mut state = InputState::default();

    let mut fires = Vec::new();
    for frame in 0u64..10 {
        let actions = state.update(das, frame, FrameInput { left: true, ..Default::default() });
        if actions.left {
            fires.push(frame);
        }
    }
    // Initial press at 0, silence until the delay, then every `arr`.
    assert_eq!(fires, vec![0, 3, 5, 7, 9]);
    assert!(matches!(state.left, DasState::Pressed { repeat_at: Some(11) }));

    // Releasing resets the machine.
    let actions = state.update(das, 10, FrameInput::default());
    assert!(!actions.left);
    assert!(matches!(state.left, DasState::Released));
}

#[test]
fn edge_triggered_actions_do_not_repeat() {
    let config = Config {
        das: Some(Das { delay: 1, arr: 1 }),
        ..Default::default()
    };
    let mut game = Game::new(config, 0, SmallRng::seed_from_u64(2));

    let held = FrameInput { rot_cw: true, ..Default::default() };
    let out = game.step(1, held).expect("active");
    assert!(out.rot_cw.is_some());
    // Holding the button down does not retrigger the rotation.
    let out = game.step(1, held).expect("active");
    assert!(out.rot_cw.is_none());
    // Releasing and pressing again does.
    let out = game.step(1, FrameInput::default()).expect("active");
    assert!(out.rot_cw.is_none());
    let out = game.step(1, held).expect("active");
    assert!(out.rot_cw.is_some());
}

#[test]
fn ghost_position_tracks_the_floor() {
    let config = Config::default();
    let game = Game::new(config, 0, SmallRng::seed_from_u64(11));
    let ghost = game.ghost_piece_pos().expect("empty field always has a ghost");
    assert_eq!(ghost.x, config.spawn_pos.x);
    // Every kind's lowest block sits on its anchor row or one below; on an
    // empty field the ghost anchor rests at row 0 or 1.
    assert!(ghost.y == 0 || ghost.y == 1);
}

#[test]
fn queue_peek_matches_later_pops() {
    let config = Config::default();
    let mut game = Game::new(config, 0, SmallRng::seed_from_u64(9));
    let upcoming = game.queue().next_pieces(3);
    assert_eq!(upcoming.len(), 3);
    let first = game.queue().nth_next_piece(0);
    assert_eq!(first, upcoming[0]);
    let popped = game.queue().pop_piece();
    assert_eq!(popped, upcoming[0]);
    assert_eq!(game.queue().nth_next_piece(0), upcoming[1]);
    assert_eq!(game.queue().nth_next_piece(1), upcoming[2]);
}
