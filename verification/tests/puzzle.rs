use ledwall::{
    Axis, Facet, FilterRule, Filters, Piece, Pos4, Puzzle, PuzzleInput, PuzzleInputState, Sign,
    Sticker, Turn,
};
use rand::SeedableRng;
use rand::rngs::SmallRng;

#[test]
fn axis_and_sign_identifiers_round_trip() {
    for id in 0..4u8 {
        assert_eq!(Axis::from_id(id).id(), id);
    }
    assert_eq!(Sign::Pos.id(), 0);
    assert_eq!(Sign::Neg.id(), 1);
    assert_eq!(Sign::Pos.to_i8(), 1);
    assert_eq!(Sign::Neg.to_i8(), -1);
    assert_eq!(Sign::try_from_i8(-2), Some(Sign::Neg));
    assert_eq!(Sign::try_from_i8(0), None);
    assert_eq!(Sign::try_from_i8(1), Some(Sign::Pos));
    assert_eq!(Sign::Pos.negate(), Sign::Neg);
    assert_eq!(Sign::Neg.times(Sign::Neg), Sign::Pos);
    assert_eq!(Sign::Neg.times(Sign::Pos), Sign::Neg);
}

#[test]
fn facet_identifiers_round_trip() {
    for id in 0..8u8 {
        let facet = Facet::from_id(id);
        assert_eq!(facet.id(), id);
    }
    assert_eq!(Facet::from_id(0), Facet { axis: Axis::X, sign: Sign::Pos });
    assert_eq!(Facet::from_id(7), Facet { axis: Axis::W, sign: Sign::Neg });
    assert_eq!(Facet::pos(Axis::Z), Facet { axis: Axis::Z, sign: Sign::Pos });
    assert_eq!(Facet::neg(Axis::Y), Facet { axis: Axis::Y, sign: Sign::Neg });
}

#[test]
fn rotating_a_position_swaps_two_coordinates() {
    let p = Pos4([1, 0, -1, 2]);
    // Same axis: no rotation exists.
    assert!(p.rot(Facet::pos(Axis::X), Facet::neg(Axis::X)).is_none());
    // X -> Y (both positive): y gets old x, x gets -old y.
    let q = p.rot(Facet::pos(Axis::X), Facet::pos(Axis::Y)).unwrap();
    assert_eq!(q, Pos4([0, 1, -1, 2]));
    // Rotating back restores the original position.
    let back = q.rot(Facet::pos(Axis::Y), Facet::pos(Axis::X)).unwrap();
    assert_eq!(back, p);
}

#[test]
fn display_projection_spreads_cells_on_the_grid() {
    assert_eq!(Pos4([1, -1, 2, 0]).display_pos(), [13, -1]);
    assert_eq!(Pos4([0, 0, 0, 0]).display_pos(), [0, 0]);
}

#[test]
fn facet_stickers_belong_to_the_facet() {
    for id in 0..8u8 {
        let facet = Facet::from_id(id);
        let stickers = facet.stickers();
        assert_eq!(stickers.len(), 27);
        for st in &stickers {
            assert_eq!(st.facet(), facet);
            assert!(facet.has_sticker(*st));
            assert!(facet.has_piece(st.piece()));
        }
        let pieces = facet.pieces();
        assert_eq!(pieces.len(), 27);
        let center = facet.center_sticker();
        assert_eq!(center.facet(), facet);
        assert_eq!(facet.center_piece(), center.piece());
    }
}

#[test]
fn pieces_and_stickers_enumerate_the_whole_puzzle() {
    let pieces = Piece::iter_all();
    assert_eq!(pieces.len(), 81);
    // The core piece has no stickers; corners have four.
    let mut total_stickers = 0;
    for p in &pieces {
        let stickers = p.stickers();
        for st in &stickers {
            assert_eq!(st.piece(), *p);
        }
        total_stickers += stickers.len();
    }
    assert_eq!(total_stickers, 216);
    assert_eq!(Sticker::iter_all().len(), 216);
    assert_eq!(Piece::core_piece().pos(), Pos4([0, 0, 0, 0]));
    assert_eq!(Piece::core_piece().stickers().len(), 0);
}

#[test]
fn turn_inverse_swaps_the_plane() {
    let turn = Turn { facet: Some(Facet::pos(Axis::X)), from: Facet::pos(Axis::Y), to: Facet::pos(Axis::Z) };
    let inv = turn.inverse();
    assert_eq!(inv.facet, turn.facet);
    assert_eq!(inv.from, turn.to);
    assert_eq!(inv.to, turn.from);
}

#[test]
fn solved_puzzle_shows_one_color_per_facet() {
    let puzzle = Puzzle::new_solved();
    assert!(puzzle.is_solved());
    let facets = puzzle.facets();
    assert_eq!(facets.len(), 8);
    for (id, block) in facets.iter().enumerate() {
        assert_eq!(block.len(), 27);
        for color in block {
            assert_eq!(*color, Facet::from_id(id as u8));
        }
    }
}

#[test]
fn a_turn_unsolves_and_its_inverse_restores() {
    let mut puzzle = Puzzle::new_solved();
    let turn = Turn {
        facet: Some(Facet::pos(Axis::X)),
        from: Facet::pos(Axis::Y),
        to: Facet::pos(Axis::Z),
    };
    assert!(puzzle.do_turn(turn));
    assert!(!puzzle.is_solved());
    assert!(puzzle.do_turn(turn.inverse()));
    assert!(puzzle.is_solved());
}

#[test]
fn impossible_turns_are_refused() {
    let mut puzzle = Puzzle::new_solved();
    let before = puzzle.clone();
    // The rotation plane must use two distinct axes.
    assert!(!puzzle.do_turn(Turn {
        facet: None,
        from: Facet::pos(Axis::X),
        to: Facet::neg(Axis::X),
    }));
    // The turned cell must not lie on the rotation plane.
    assert!(!puzzle.do_turn(Turn {
        facet: Some(Facet::pos(Axis::Y)),
        from: Facet::pos(Axis::Y),
        to: Facet::pos(Axis::Z),
    }));
    assert_eq!(puzzle, before);
}

#[test]
fn whole_puzzle_turns_permute_all_stickers() {
    let mut puzzle = Puzzle::new_solved();
    let turn = Turn { facet: None, from: Facet::pos(Axis::X), to: Facet::pos(Axis::W) };
    assert!(puzzle.do_turn(turn));
    // Every slot still holds a color and each color still appears 27
    // times: the turn is a permutation.
    let mut counts = [0usize; 8];
    for color in &puzzle.stickers {
        counts[color.id() as usize] += 1;
    }
    assert_eq!(counts, [27; 8]);
    assert!(puzzle.do_turn(turn.inverse()));
    assert!(puzzle.is_solved());
}

#[test]
fn scrambling_keeps_the_sticker_counts() {
    let mut puzzle = Puzzle::new_solved();
    let mut rng = SmallRng::seed_from_u64(7);
    puzzle.scramble_n(&mut rng, 60);
    assert_eq!(puzzle.stickers.len(), 216);
    let mut counts = [0usize; 8];
    for color in &puzzle.stickers {
        counts[color.id() as usize] += 1;
    }
    assert_eq!(counts, [27; 8]);
}

#[test]
fn facet_presses_build_a_cell_turn() {
    let mut input = PuzzleInput::default();
    // Select a cell, then the rotation plane's two facets.
    assert_eq!(input.input_facet(Facet::pos(Axis::X)), None);
    assert_eq!(input.input_facet(Facet::pos(Axis::Y)), None);
    let turn = input.input_facet(Facet::pos(Axis::Z)).expect("three presses complete a turn");
    assert_eq!(
        turn,
        Turn {
            facet: Some(Facet::pos(Axis::X)),
            from: Facet::pos(Axis::Y),
            to: Facet::pos(Axis::Z),
        }
    );
    assert_eq!(input.state, PuzzleInputState::Init);
    // The completed turn is always accepted by the puzzle.
    let mut puzzle = Puzzle::new_solved();
    assert!(puzzle.do_turn(turn));
}

#[test]
fn rotate_key_builds_a_whole_puzzle_turn() {
    let mut input = PuzzleInput::default();
    assert_eq!(input.input_rotate(), None);
    assert_eq!(input.state, PuzzleInputState::Rotate1);
    assert_eq!(input.input_facet(Facet::pos(Axis::W)), None);
    let turn = input.input_facet(Facet::neg(Axis::X)).expect("two facets complete the plane");
    assert_eq!(turn, Turn { facet: None, from: Facet::pos(Axis::W), to: Facet::neg(Axis::X) });
    // Pressing rotate mid-selection cancels it.
    assert_eq!(input.input_facet(Facet::pos(Axis::X)), None);
    assert_eq!(input.input_rotate(), None);
    assert_eq!(input.state, PuzzleInputState::Init);
}

#[test]
fn axis_collisions_are_rejected_and_flashed() {
    let mut input = PuzzleInput::default();
    assert_eq!(input.input_facet(Facet::pos(Axis::X)), None);
    // The rotation plane may not reuse the turned cell's axis.
    assert_eq!(input.input_facet(Facet::neg(Axis::X)), None);
    let flash = input.red_flash.expect("the collision is recorded");
    assert_eq!(flash.facet, Facet::neg(Axis::X));
    assert_eq!(flash.conflicting, None);
    // The selection itself is unchanged.
    assert_eq!(input.state, PuzzleInputState::Turn1(Facet::pos(Axis::X)));
    // Re-pressing the selected facet deselects it.
    assert_eq!(input.input_facet(Facet::pos(Axis::X)), None);
    assert_eq!(input.state, PuzzleInputState::Init);
}

#[test]
fn filters_match_pieces_by_sticker_colors() {
    // The default filter set shows everything.
    let filters = Filters::default();
    assert!(filters.has_piece(&[Facet::from_id(0), Facet::from_id(2)]));
    assert!(filters.has_piece(&[]));

    // A rule demanding facet 0 and forbidding facet 1.
    let rule = FilterRule { must_have: 0x01, must_not_have: 0x02, enabled: true };
    assert!(rule.has_piece(&[Facet::from_id(0)]));
    assert!(rule.has_piece(&[Facet::from_id(0), Facet::from_id(3)]));
    assert!(!rule.has_piece(&[Facet::from_id(0), Facet::from_id(1)]));
    assert!(!rule.has_piece(&[Facet::from_id(3)]));
    // A disabled rule matches nothing.
    let off = FilterRule { enabled: false, ..rule };
    assert!(!off.has_piece(&[Facet::from_id(0)]));
    // The default single rule is disabled-by-masks: it lets all through.
    let default_rule = FilterRule::default();
    assert!(default_rule.enabled);
    assert_eq!(default_rule.must_have, 0x00);
    assert_eq!(default_rule.must_not_have, 0xFF);
    assert!(default_rule.has_piece(&[]));
    assert!(!default_rule.has_piece(&[Facet::from_id(5)]));
}
