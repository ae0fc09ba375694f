use checkers::board::{Coordinate, GamePiece, Move, PieceColor};
use checkers::game::{GameEngine, GameError, MoveResult};

const WHITE_START: [(usize, usize); 12] = [
    (1, 0), (3, 0), (5, 0), (7, 0),
    (0, 1), (2, 1), (4, 1), (6, 1),
    (1, 2), (3, 2), (5, 2), (7, 2),
];

const BLACK_START: [(usize, usize); 12] = [
    (0, 5), (2, 5), (4, 5), (6, 5),
    (1, 6), (3, 6), (5, 6), (7, 6),
    (0, 7), (2, 7), (4, 7), (6, 7),
];

fn white() -> GamePiece {
    GamePiece::new(PieceColor::White)
}

fn black() -> GamePiece {
    GamePiece::new(PieceColor::Black)
}

fn snapshot(engine: &GameEngine) -> (Vec<Option<GamePiece>>, PieceColor, u32) {
    let mut squares = Vec::new();
    for x in 0..8 {
        for y in 0..8 {
            squares.push(engine.get_piece(Coordinate(x, y)).unwrap());
        }
    }
    (squares, engine.current_turn(), engine.move_count())
}

fn play(engine: &mut GameEngine, from: (usize, usize), to: (usize, usize)) -> MoveResult {
    assert!(engine.move_count() < u32::MAX);
    engine.move_piece(&Move::new(from, to)).unwrap()
}

/// Plays up to the position in which Black has jumped from (3,4) over
/// (2,3) to (1,2); White is to play.
fn after_first_capture() -> GameEngine {
    let mut engine = GameEngine::new();
    play(&mut engine, (2, 5), (3, 4));
    play(&mut engine, (1, 2), (2, 3));
    play(&mut engine, (3, 4), (1, 2));
    engine
}

/// Plays on until a Black piece has jumped to (3,0) and was crowned;
/// White is to play.
fn after_crowning() -> GameEngine {
    let mut engine = after_first_capture();
    play(&mut engine, (3, 2), (4, 3));
    play(&mut engine, (6, 5), (7, 4));
    play(&mut engine, (4, 1), (3, 2));
    play(&mut engine, (7, 4), (6, 5));
    play(&mut engine, (3, 0), (4, 1));
    play(&mut engine, (1, 2), (3, 0));
    engine
}

#[test]
fn starting_position_matches_layout() {
    let engine = GameEngine::new();
    assert_eq!(engine.current_turn(), PieceColor::Black);
    assert_eq!(engine.move_count(), 0);
    let mut whites = 0;
    let mut blacks = 0;
    for x in 0..8 {
        for y in 0..8 {
            let found = engine.get_piece(Coordinate(x, y)).unwrap();
            let expected = if WHITE_START.contains(&(x, y)) {
                Some(white())
            } else if BLACK_START.contains(&(x, y)) {
                Some(black())
            } else {
                None
            };
            assert_eq!(found, expected, "square ({}, {})", x, y);
            match found {
                Some(p) if p.color == PieceColor::White => whites += 1,
                Some(_) => blacks += 1,
                None => {}
            }
        }
    }
    assert_eq!(whites, 12);
    assert_eq!(blacks, 12);
}

#[test]
fn initialise_pieces_overwrites_only_starting_squares() {
    let mut engine = after_first_capture();
    let before = snapshot(&engine);
    engine.initialise_pieces();
    let after = snapshot(&engine);
    assert_eq!(after.1, before.1);
    assert_eq!(after.2, before.2);
    for x in 0..8usize {
        for y in 0..8usize {
            let i = 8 * x + y;
            if WHITE_START.contains(&(x, y)) {
                assert_eq!(after.0[i], Some(white()));
            } else if BLACK_START.contains(&(x, y)) {
                assert_eq!(after.0[i], Some(black()));
            } else {
                assert_eq!(after.0[i], before.0[i]);
            }
        }
    }
}

#[test]
fn legal_moves_black() {
    let engine = GameEngine::new();
    let moves = engine.legal_moves();
    assert_eq!(
        moves,
        vec![
            Move::new((0, 5), (1, 4)),
            Move::new((2, 5), (3, 4)),
            Move::new((2, 5), (1, 4)),
            Move::new((4, 5), (5, 4)),
            Move::new((4, 5), (3, 4)),
            Move::new((6, 5), (7, 4)),
            Move::new((6, 5), (5, 4)),
        ]
    );
}

#[test]
fn legal_moves_white_after_one_move() {
    let mut engine = GameEngine::new();
    play(&mut engine, (0, 5), (1, 4));
    assert_eq!(
        engine.legal_moves(),
        vec![
            Move::new((1, 2), (0, 3)),
            Move::new((1, 2), (2, 3)),
            Move::new((3, 2), (2, 3)),
            Move::new((3, 2), (4, 3)),
            Move::new((5, 2), (4, 3)),
            Move::new((5, 2), (6, 3)),
            Move::new((7, 2), (6, 3)),
        ]
    );
}

#[test]
fn legal_moves_enumerate_identically() {
    let a = after_first_capture();
    let b = after_first_capture();
    assert_eq!(a.legal_moves(), b.legal_moves());
}

#[test]
fn legal_moves_start_on_own_piece_and_end_on_empty_square() {
    for engine in [GameEngine::new(), after_first_capture(), after_crowning()] {
        let moves = engine.legal_moves();
        assert!(!moves.is_empty());
        for mv in moves {
            let source = engine.get_piece(mv.from).unwrap().unwrap();
            assert_eq!(source.color, engine.current_turn());
            assert_eq!(engine.get_piece(mv.to), Ok(None));
        }
    }
}

#[test]
fn every_legal_move_is_accepted() {
    let listed = after_first_capture().legal_moves();
    assert!(!listed.is_empty());
    for mv in listed {
        let mut engine = after_first_capture();
        let res = engine.move_piece(&mv);
        assert!(matches!(res, Ok(r) if r.mv == mv));
        assert_eq!(engine.current_turn(), PieceColor::Black);
        assert_eq!(engine.move_count(), 4);
    }
}

#[test]
fn every_unlisted_move_is_refused_and_changes_nothing() {
    let mut engine = after_first_capture();
    let listed = engine.legal_moves();
    let before = snapshot(&engine);
    for fx in 0..9 {
        for fy in 0..9 {
            for tx in 0..9 {
                for ty in 0..9 {
                    let mv = Move::new((fx, fy), (tx, ty));
                    if !listed.contains(&mv) {
                        assert_eq!(engine.move_piece(&mv), Err(GameError::IllegalMove));
                        assert_eq!(snapshot(&engine), before);
                    }
                }
            }
        }
    }
}

#[test]
fn refused_moves_by_cause() {
    let mut engine = GameEngine::new();
    let before = snapshot(&engine);
    // not a diagonal step
    assert_eq!(engine.move_piece(&Move::new((0, 5), (0, 4))), Err(GameError::IllegalMove));
    // destination occupied
    assert_eq!(engine.move_piece(&Move::new((1, 6), (2, 5))), Err(GameError::IllegalMove));
    // jump over an own piece
    assert_eq!(engine.move_piece(&Move::new((1, 6), (3, 4))), Err(GameError::IllegalMove));
    // jump over an empty square
    assert_eq!(engine.move_piece(&Move::new((0, 5), (2, 3))), Err(GameError::IllegalMove));
    // from an empty square
    assert_eq!(engine.move_piece(&Move::new((1, 4), (2, 3))), Err(GameError::IllegalMove));
    // off the board
    assert_eq!(engine.move_piece(&Move::new((0, 5), (usize::MAX, 4))), Err(GameError::IllegalMove));
    assert_eq!(engine.move_piece(&Move::new((8, 8), (7, 7))), Err(GameError::IllegalMove));
    // standing still
    assert_eq!(engine.move_piece(&Move::new((0, 5), (0, 5))), Err(GameError::IllegalMove));
    assert_eq!(snapshot(&engine), before);
}

#[test]
fn turns_alternate_and_moves_are_counted() {
    let mut engine = GameEngine::new();
    let script = [
        ((2, 5), (3, 4)),
        ((1, 2), (2, 3)),
        ((3, 4), (1, 2)),
        ((3, 2), (4, 3)),
        ((6, 5), (7, 4)),
        ((4, 1), (3, 2)),
    ];
    let mut previous = engine.current_turn();
    for (n, (from, to)) in script.iter().enumerate() {
        play(&mut engine, *from, *to);
        assert_ne!(engine.current_turn(), previous);
        previous = engine.current_turn();
        assert_eq!(engine.move_count() as usize, n + 1);
    }
    assert_eq!(engine.move_count(), 6);
    assert_eq!(engine.current_turn(), PieceColor::Black);
}

#[test]
fn jump_removes_the_piece_between() {
    let mut engine = GameEngine::new();
    play(&mut engine, (2, 5), (3, 4));
    play(&mut engine, (1, 2), (2, 3));
    assert_eq!(engine.get_piece(Coordinate(2, 3)), Ok(Some(white())));
    let res = play(&mut engine, (3, 4), (1, 2));
    assert_eq!(res, MoveResult { mv: Move::new((3, 4), (1, 2)), crowned: false });
    assert_eq!(engine.get_piece(Coordinate(2, 3)), Ok(None));
    assert_eq!(engine.get_piece(Coordinate(3, 4)), Ok(None));
    assert_eq!(engine.get_piece(Coordinate(1, 2)), Ok(Some(black())));
    let mut whites = 0;
    let mut blacks = 0;
    for p in snapshot(&engine).0.into_iter().flatten() {
        if p.color == PieceColor::White {
            whites += 1;
        } else {
            blacks += 1;
        }
    }
    assert_eq!((whites, blacks), (11, 12));
}

#[test]
fn jump_onto_occupied_square_is_not_legal() {
    let mut engine = GameEngine::new();
    play(&mut engine, (2, 5), (3, 4));
    play(&mut engine, (1, 2), (2, 3));
    play(&mut engine, (6, 5), (7, 4));
    // White on (2,3) could pass over Black on (3,4), but (4,5) is taken.
    let mv = Move::new((2, 3), (4, 5));
    assert!(engine.valid_jump(&white(), &mv.from, &mv.to));
    assert_eq!(engine.get_piece(mv.to), Ok(Some(black())));
    assert!(!engine.legal_moves().contains(&mv));
    assert!(!engine.valid_moves_from(mv.from).contains(&mv));
    let before = snapshot(&engine);
    assert_eq!(engine.move_piece(&mv), Err(GameError::IllegalMove));
    assert_eq!(snapshot(&engine), before);
}

#[test]
fn black_piece_is_crowned_on_row_zero() {
    let mut engine = after_first_capture();
    for (from, to) in [
        ((3, 2), (4, 3)),
        ((6, 5), (7, 4)),
        ((4, 1), (3, 2)),
        ((7, 4), (6, 5)),
        ((3, 0), (4, 1)),
    ] {
        let res = play(&mut engine, from, to);
        assert!(!res.crowned);
        assert_eq!(engine.get_piece(Coordinate(to.0, to.1)).unwrap().unwrap().crowned, false);
    }
    let res = play(&mut engine, (1, 2), (3, 0));
    assert_eq!(res, MoveResult { mv: Move::new((1, 2), (3, 0)), crowned: true });
    assert_eq!(
        engine.get_piece(Coordinate(3, 0)),
        Ok(Some(GamePiece { color: PieceColor::Black, crowned: true }))
    );
    assert_eq!(engine.get_piece(Coordinate(2, 1)), Ok(None));
    // no other piece was crowned
    for x in 0..8 {
        for y in 0..8 {
            if (x, y) != (3, 0) {
                if let Some(p) = engine.get_piece(Coordinate(x, y)).unwrap() {
                    assert!(!p.crowned);
                }
            }
        }
    }
}

#[test]
fn crowned_piece_stays_crowned() {
    let mut engine = after_crowning();
    let king = GamePiece { color: PieceColor::Black, crowned: true };
    play(&mut engine, (5, 2), (6, 3));
    assert_eq!(engine.get_piece(Coordinate(3, 0)), Ok(Some(king)));
    let res = play(&mut engine, (3, 0), (2, 1));
    assert!(!res.crowned);
    assert_eq!(engine.get_piece(Coordinate(2, 1)), Ok(Some(king)));
    play(&mut engine, (6, 3), (5, 2));
    assert_eq!(engine.get_piece(Coordinate(2, 1)), Ok(Some(king)));
}

#[test]
fn white_piece_is_crowned_on_row_seven() {
    let mut engine = GameEngine::new();
    for (from, to) in [
        ((0, 5), (1, 4)),
        ((5, 2), (4, 3)),
        ((6, 5), (5, 4)),
        ((4, 3), (6, 5)),
        ((4, 5), (3, 4)),
        ((1, 2), (0, 3)),
        ((3, 6), (4, 5)),
        ((0, 3), (1, 2)),
        ((4, 7), (3, 6)),
    ] {
        let res = play(&mut engine, from, to);
        assert!(!res.crowned);
        assert_eq!(engine.get_piece(Coordinate(to.0, to.1)).unwrap().unwrap().crowned, false);
    }
    let res = play(&mut engine, (6, 5), (4, 7));
    assert_eq!(res, MoveResult { mv: Move::new((6, 5), (4, 7)), crowned: true });
    assert_eq!(
        engine.get_piece(Coordinate(4, 7)),
        Ok(Some(GamePiece { color: PieceColor::White, crowned: true }))
    );
    assert_eq!(engine.get_piece(Coordinate(5, 6)), Ok(None));
    assert_eq!(engine.get_piece(Coordinate(6, 5)), Ok(None));
    assert_eq!(engine.move_count(), 10);
    assert_eq!(engine.current_turn(), PieceColor::Black);
}

#[test]
fn get_piece_refuses_squares_off_the_board() {
    let engine = GameEngine::new();
    assert_eq!(engine.get_piece(Coordinate(8, 0)), Err(GameError::OutOfBounds));
    assert_eq!(engine.get_piece(Coordinate(0, 8)), Err(GameError::OutOfBounds));
    assert_eq!(engine.get_piece(Coordinate(8, 8)), Err(GameError::OutOfBounds));
    assert_eq!(engine.get_piece(Coordinate(usize::MAX, 3)), Err(GameError::OutOfBounds));
    for x in 0..8 {
        for y in 0..8 {
            assert!(engine.get_piece(Coordinate(x, y)).is_ok());
        }
    }
}

#[test]
fn black_opens_with_a_plain_move() {
    let mut engine = GameEngine::new();
    assert_eq!(engine.get_piece(Coordinate(0, 5)), Ok(Some(black())));
    assert_eq!(engine.get_piece(Coordinate(1, 4)), Ok(None));
    let res = engine.move_piece(&Move::new((0, 5), (1, 4)));
    assert_eq!(res, Ok(MoveResult { mv: Move::new((0, 5), (1, 4)), crowned: false }));
    assert_eq!(engine.current_turn(), PieceColor::White);
    assert_eq!(engine.move_count(), 1);
    assert_eq!(engine.get_piece(Coordinate(0, 5)), Ok(None));
    assert_eq!(engine.get_piece(Coordinate(1, 4)), Ok(Some(black())));
}

#[test]
fn move_from_empty_square_is_refused() {
    let mut engine = GameEngine::new();
    assert_eq!(engine.get_piece(Coordinate(1, 5)), Ok(None));
    let before = snapshot(&engine);
    assert_eq!(engine.move_piece(&Move::new((1, 5), (0, 4))), Err(GameError::IllegalMove));
    assert_eq!(snapshot(&engine), before);
}

#[test]
fn white_may_not_move_on_blacks_turn() {
    let mut engine = GameEngine::new();
    assert_eq!(engine.current_turn(), PieceColor::Black);
    let before = snapshot(&engine);
    assert_eq!(engine.get_piece(Coordinate(1, 2)), Ok(Some(white())));
    assert_eq!(engine.get_piece(Coordinate(2, 3)), Ok(None));
    assert_eq!(engine.move_piece(&Move::new((1, 2), (2, 3))), Err(GameError::IllegalMove));
    assert_eq!(snapshot(&engine), before);
    assert_eq!(engine.current_turn(), PieceColor::Black);
    assert_eq!(engine.move_count(), 0);
}

#[test]
fn midpiece_of_each_direction() {
    let engine = GameEngine::new();
    assert_eq!(engine.midpiece_coordinate(3, 3, 5, 5), Some(Coordinate(4, 4)));
    assert_eq!(engine.midpiece_coordinate(3, 3, 5, 1), Some(Coordinate(4, 2)));
    assert_eq!(engine.midpiece_coordinate(3, 3, 1, 5), Some(Coordinate(2, 4)));
    assert_eq!(engine.midpiece_coordinate(3, 3, 1, 1), Some(Coordinate(2, 2)));
    assert_eq!(engine.midpiece_coordinate(0, 0, 2, 2), Some(Coordinate(1, 1)));
    assert_eq!(engine.midpiece_coordinate(2, 2, 0, 0), Some(Coordinate(1, 1)));
}

#[test]
fn midpiece_of_other_offsets_is_none() {
    let engine = GameEngine::new();
    assert_eq!(engine.midpiece_coordinate(3, 3, 4, 4), None);
    assert_eq!(engine.midpiece_coordinate(3, 3, 3, 3), None);
    assert_eq!(engine.midpiece_coordinate(3, 3, 5, 3), None);
    assert_eq!(engine.midpiece_coordinate(3, 3, 5, 4), None);
    assert_eq!(engine.midpiece_coordinate(3, 3, 3, 5), None);
    assert_eq!(engine.midpiece_coordinate(3, 3, 6, 6), None);
    assert_eq!(engine.midpiece_coordinate(0, 1, 2, 0), None);
    assert_eq!(engine.midpiece_coordinate(1, 0, 0, 2), None);
    assert_eq!(engine.midpiece_coordinate(usize::MAX, usize::MAX, 1, 1), None);
}

#[test]
fn valid_move_needs_own_piece_and_empty_target() {
    let engine = GameEngine::new();
    let p = black();
    assert!(engine.valid_move(&p, &Coordinate(0, 5), &Coordinate(1, 4)));
    assert!(!engine.valid_move(&p, &Coordinate(1, 6), &Coordinate(2, 5)));
    assert!(!engine.valid_move(&p, &Coordinate(1, 2), &Coordinate(2, 3)));
    assert!(!engine.valid_move(&p, &Coordinate(1, 4), &Coordinate(2, 3)));
    assert!(!engine.valid_move(&p, &Coordinate(0, 5), &Coordinate(8, 4)));
    assert!(!engine.valid_move(&p, &Coordinate(8, 5), &Coordinate(1, 4)));
}

#[test]
fn valid_jump_needs_opposing_piece_between() {
    let engine = after_first_capture();
    // Black on (1,2) has White on (2,1) and (0,1) beside it.
    assert!(engine.valid_jump(&black(), &Coordinate(1, 2), &Coordinate(3, 0)));
    assert!(!engine.valid_jump(&white(), &Coordinate(1, 2), &Coordinate(3, 0)));
    // nothing stands on (2,3)
    assert!(!engine.valid_jump(&black(), &Coordinate(1, 2), &Coordinate(3, 4)));
    // not a jump
    assert!(!engine.valid_jump(&black(), &Coordinate(1, 2), &Coordinate(2, 1)));
    // the square between lies off the board
    assert!(!engine.valid_jump(&black(), &Coordinate(8, 8), &Coordinate(10, 10)));
}

#[test]
fn valid_moves_from_lists_moves_then_jumps() {
    let mut engine = after_first_capture();
    // White to play: (0,1) and (2,1) can both take the piece on (1,2).
    assert_eq!(
        engine.valid_moves_from(Coordinate(0, 1)),
        vec![Move::new((0, 1), (2, 3))]
    );
    assert_eq!(
        engine.valid_moves_from(Coordinate(2, 1)),
        vec![Move::new((2, 1), (0, 3))]
    );
    assert_eq!(engine.valid_moves_from(Coordinate(4, 4)), vec![]);
    assert_eq!(engine.valid_moves_from(Coordinate(9, 9)), vec![]);
    play(&mut engine, (3, 2), (2, 3));
    // Black on (1,2): the plain move to (0,3), then the jump over (2,3).
    assert_eq!(
        engine.valid_moves_from(Coordinate(1, 2)),
        vec![Move::new((1, 2), (0, 3)), Move::new((1, 2), (3, 4))]
    );
}

#[test]
fn should_crown_looks_at_the_far_rank() {
    let engine = after_crowning();
    assert!(engine.should_crown(black(), Coordinate(3, 0)));
    assert!(!engine.should_crown(white(), Coordinate(1, 0)));
    assert!(!engine.should_crown(black(), Coordinate(0, 7)));
    assert!(!engine.should_crown(black(), Coordinate(0, 0)));
    assert!(!engine.should_crown(black(), Coordinate(8, 0)));
}
