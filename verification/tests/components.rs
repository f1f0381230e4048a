use ledwall::{
    ArrayVec, Blocked, Buttons, Config, ControllerInput, FullInput, KEY_REPEAT_DELAY_NANOS,
    KEY_REPEAT_RATE_NANOS, KeyRepeat, Life, LockDown, Offset, Playfield, Pos, Queue, Rgb, Rot,
    Tetromino, dim, rgb, xy_is_in_frame,
};
use rand::SeedableRng;
use rand::rngs::SmallRng;

#[test]
fn rotation_group_laws_hold_on_values() {
    for rot in [Rot::Init, Rot::Cw, Rot::Double, Rot::Ccw] {
        assert_eq!(rot.rot_cw().rot_cw().rot_cw().rot_cw(), rot);
        assert_eq!(rot.rot_cw().rot_cw(), rot.rot_180());
        assert_eq!(rot.rot_cw().rot_ccw(), rot);
        assert_eq!(rot.rot_ccw().rot_cw(), rot);
    }
    assert_eq!(Rot::Init.rot_cw(), Rot::Cw);
    assert_eq!(Rot::Ccw.rot_cw(), Rot::Init);
    assert_eq!(Rot::from_index(6), Rot::Double);
    assert_eq!(Rot::Ccw.index(), 3);
}

#[test]
fn rotation_applies_quarter_turns_to_offsets() {
    let o = Offset { dx: 1, dy: 2 };
    assert_eq!(Rot::Init.apply(o), Offset { dx: 1, dy: 2 });
    assert_eq!(Rot::Cw.apply(o), Offset { dx: 2, dy: -1 });
    assert_eq!(Rot::Double.apply(o), Offset { dx: -1, dy: -2 });
    assert_eq!(Rot::Ccw.apply(o), Offset { dx: -2, dy: 1 });
}

#[test]
fn coordinates_at_yields_four_distinct_rotated_positions() {
    let kinds = [
        Tetromino::I,
        Tetromino::J,
        Tetromino::L,
        Tetromino::O,
        Tetromino::S,
        Tetromino::T,
        Tetromino::Z,
    ];
    for kind in kinds {
        for rot in [Rot::Init, Rot::Cw, Rot::Double, Rot::Ccw] {
            let anchor = Pos { x: 5, y: 7 };
            let blocks = kind.coordinates_at(rot, anchor);
            assert_eq!(blocks.len(), 4);
            for i in 0..4 {
                for j in 0..i {
                    assert_ne!(blocks[i], blocks[j]);
                }
                // Each block is the rotated shape offset, translated.
                let shape = kind.coordinates()[i];
                let rotated = rot.apply(shape);
                assert_eq!(blocks[i], Pos { x: 5 + rotated.dx, y: 7 + rotated.dy });
            }
        }
    }
    // The catalog table itself, spot-checked.
    assert_eq!(
        Tetromino::T.coordinates(),
        [
            Offset { dx: -1, dy: 0 },
            Offset { dx: 0, dy: 0 },
            Offset { dx: 0, dy: 1 },
            Offset { dx: 1, dy: 0 },
        ]
    );
}

#[test]
fn kick_translations_follow_the_offset_tables() {
    // JLSTZ Init -> Cw: initial offsets are zero, so the kicks are the
    // negated final offsets.
    let kicks = Tetromino::J.kick_translations(Rot::Init, Rot::Cw);
    assert_eq!(
        kicks,
        [
            Offset { dx: 0, dy: 0 },
            Offset { dx: -1, dy: 0 },
            Offset { dx: -1, dy: 1 },
            Offset { dx: 0, dy: -2 },
            Offset { dx: -1, dy: -2 },
        ]
    );
    // O pieces only get the single wobble correction.
    let kicks = Tetromino::O.kick_translations(Rot::Init, Rot::Cw);
    assert_eq!(kicks, [Offset { dx: 0, dy: 1 }; 5]);
}

#[test]
fn playfield_placement_and_bounds() {
    let mut pf = Playfield::new(10, 40);
    assert_eq!(pf.width(), 10);
    assert_eq!(pf.height(), 40);
    assert_eq!(pf.get(Pos { x: 10, y: 0 }), None);
    assert_eq!(pf.get(Pos { x: 0, y: -1 }), None);
    assert_eq!(pf.get(Pos { x: 0, y: 0 }), Some(None));

    assert!(pf.can_place_piece(Tetromino::O, Rot::Init, Pos { x: 0, y: 0 }));
    assert!(!pf.can_place_piece(Tetromino::O, Rot::Init, Pos { x: 9, y: 0 }));
    assert_eq!(pf.place_piece(Tetromino::O, Rot::Init, Pos { x: 0, y: 0 }), Ok(()));
    assert_eq!(pf.get(Pos { x: 0, y: 0 }), Some(Some(Tetromino::O)));
    assert_eq!(pf.get(Pos { x: 1, y: 1 }), Some(Some(Tetromino::O)));
    // Overlapping placement is refused and changes nothing.
    assert_eq!(pf.place_piece(Tetromino::O, Rot::Init, Pos { x: 1, y: 0 }), Err(Blocked));
    assert_eq!(pf.get(Pos { x: 2, y: 0 }), Some(None));
}

#[test]
fn full_rows_and_delete_row_shift_down() {
    let mut pf = Playfield::new(4, 8);
    // Fill row 0 except the last cell: not yet full.
    for x in 0..3i8 {
        pf.set(Pos { x, y: 0 }, Some(Tetromino::I));
    }
    assert!(pf.full_rows().is_empty());
    pf.set(Pos { x: 3, y: 0 }, Some(Tetromino::J));
    assert_eq!(pf.full_rows(), vec![0]);

    // A marker above the cleared row.
    pf.set(Pos { x: 2, y: 1 }, Some(Tetromino::T));
    pf.set(Pos { x: 1, y: 3 }, Some(Tetromino::S));

    pf.delete_row(0);
    // Row 0 is what row 1 used to be; everything shifted down one row.
    assert_eq!(pf.get(Pos { x: 2, y: 0 }), Some(Some(Tetromino::T)));
    assert_eq!(pf.get(Pos { x: 0, y: 0 }), Some(None));
    assert_eq!(pf.get(Pos { x: 1, y: 2 }), Some(Some(Tetromino::S)));
    // The top row is empty.
    for x in 0..4i8 {
        assert_eq!(pf.get(Pos { x, y: 7 }), Some(None));
    }
    assert!(pf.full_rows().is_empty());
}

#[test]
fn bag_randomizer_deals_every_kind_once_per_seven() {
    let mut queue = Queue::new(SmallRng::seed_from_u64(42));
    for window in 0..4 {
        let mut counts = [0usize; 7];
        for _ in 0..7 {
            let piece = queue.pop_piece();
            let slot = match piece {
                Tetromino::I => 0,
                Tetromino::J => 1,
                Tetromino::L => 2,
                Tetromino::O => 3,
                Tetromino::S => 4,
                Tetromino::T => 5,
                Tetromino::Z => 6,
            };
            counts[slot] += 1;
        }
        assert_eq!(counts, [1; 7], "window {window} must hold each kind once");
    }
}

#[test]
fn default_config_matches_the_guideline_board() {
    let config = Config::default();
    assert_eq!(config.width, 10);
    assert_eq!(config.height, 20);
    assert_eq!(config.buffer_height, 20);
    assert_eq!(config.spawn_pos, Pos { x: 4, y: 20 });
    assert!(config.das.is_none());
    assert_eq!(config.lock_down, LockDown::Infinity);
    assert!(!config.master_mode);
}

#[test]
fn positions_translate_and_offsets_compose() {
    let p = Pos::new(3, -2);
    assert_eq!(p.add_offset(Offset::new(-1, 4)), Pos { x: 2, y: 2 });
    assert_eq!(p.checked_add(Offset::new(1, 1)), Some(Pos { x: 4, y: -1 }));
    assert_eq!(Pos::new(127, 0).checked_add(Offset::new(1, 0)), None);
    assert_eq!(Pos::new(-128, 0).checked_add(Offset::new(-1, 0)), None);
    assert_eq!(Offset::new(2, 3).sub_offset(Offset::new(1, 5)), Offset { dx: 1, dy: -2 });
    assert_eq!(Offset::new(2, -3).neg_offset(), Offset { dx: -2, dy: 3 });
}

#[test]
fn array_vec_respects_its_capacity() {
    let mut v: ArrayVec<u32, 3> = ArrayVec::new();
    assert_eq!(v.len(), 0);
    v.push(10);
    v.push(20);
    assert_eq!(v.try_push(30), Ok(()));
    assert_eq!(v.try_push(40), Err(()));
    assert_eq!(v.as_slice(), &[10, 20, 30]);
    v.remove(1);
    assert_eq!(v.as_slice(), &[10, 30]);
    assert_eq!(v.try_push(40), Ok(()));
    assert_eq!(v.as_slice(), &[10, 30, 40]);
}

#[test]
fn controller_edges_are_detected() {
    let mut current = Buttons::default();
    current.a = true;
    current.left = true;
    let mut previous = Buttons::default();
    previous.left = true;
    previous.b = true;
    let input = ControllerInput { current, previous };

    let pressed = input.pressed();
    assert!(pressed.a && !pressed.left && !pressed.b);
    let released = input.released();
    assert!(released.b && !released.left && !released.a);
}

#[test]
fn either_controller_drives_the_shared_input() {
    let mut blue = ControllerInput::default();
    blue.current.x = true;
    let merged = FullInput { blue: Some(blue), green: None }.any();
    assert!(merged.current.x);
    assert!(!merged.current.y);
    let empty = FullInput::default().any();
    assert_eq!(empty.current, Buttons::default());
}

#[test]
fn key_repeat_fires_on_press_delay_and_rate() {
    let mut key = KeyRepeat::new();
    // Fresh press acts at once.
    assert!(key.update(0, true));
    // Before the delay: silence.
    assert!(!key.update(KEY_REPEAT_DELAY_NANOS - 1, true));
    // At the delay: repeat fires.
    assert!(key.update(KEY_REPEAT_DELAY_NANOS, true));
    // Next repeat after the rate interval.
    assert!(!key.update(KEY_REPEAT_DELAY_NANOS + KEY_REPEAT_RATE_NANOS - 1, true));
    assert!(key.update(KEY_REPEAT_DELAY_NANOS + KEY_REPEAT_RATE_NANOS, true));
    // Release resets.
    assert!(!key.update(KEY_REPEAT_DELAY_NANOS + KEY_REPEAT_RATE_NANOS + 1, false));
    assert!(matches!(key, KeyRepeat::Released));
}

#[test]
fn colors_decode_and_dim() {
    let c = Rgb::from_hex(0x12_34_56);
    assert_eq!(c.0, [0x12, 0x34, 0x56]);
    assert_eq!(Rgb::black().0, [0, 0, 0]);
    assert_eq!(Rgb::white().0, [255, 255, 255]);
    assert_eq!(rgb(0xFF9900), [0xFF, 0x99, 0x00]);
    assert_eq!(dim([200, 100, 3]), [50, 25, 0]);
}

#[test]
fn frame_bounds_follow_the_panel_size() {
    assert!(xy_is_in_frame([0, 0]));
    assert!(xy_is_in_frame([31, 63]));
    assert!(!xy_is_in_frame([32, 0]));
    assert!(!xy_is_in_frame([0, 64]));
}

#[test]
fn life_blinker_oscillates_with_period_two() {
    let mut life = Life::new();
    // A horizontal blinker in the middle of the board.
    life.set_state(10, 10, 1);
    life.set_state(11, 10, 1);
    life.set_state(12, 10, 1);

    life.step_cells();
    // The blinker turns vertical; the old end cells start a trail.
    assert_eq!(life.state(11, 9), 1);
    assert_eq!(life.state(11, 10), 1);
    assert_eq!(life.state(11, 11), 1);
    assert_eq!(life.state(10, 10), 2);
    assert_eq!(life.state(12, 10), 2);

    life.step_cells();
    // And back to horizontal, while the unrefreshed trail ages.
    assert_eq!(life.state(10, 10), 1);
    assert_eq!(life.state(11, 10), 1);
    assert_eq!(life.state(12, 10), 1);
    assert_eq!(life.state(11, 9), 2);
    assert_eq!(life.state(11, 11), 2);
}

#[test]
fn life_neighbors_wrap_around_the_edges() {
    let mut life = Life::new();
    // A corner cell sees neighbors on the opposite edges.
    life.set_state(0, 0, 1);
    life.set_state(31, 0, 1);
    life.set_state(0, 63, 1);
    // Each of the three live cells touches the other two across the
    // edges, so all survive... and their common wrapped neighbor is born.
    life.step_cells();
    assert_eq!(life.state(0, 0), 1);
    assert_eq!(life.state(31, 0), 1);
    assert_eq!(life.state(0, 63), 1);
    assert_eq!(life.state(31, 63), 1);
}
