//! The engine: a board, the side to play and a move counter, changed only
//! by applying legal moves.

use vstd::prelude::*;
use crate::board::{Coordinate, GamePiece, Move, PieceColor};
use crate::position::{Position, midpiece, square};

verus! {

/// Why the engine turned a request down.
#[derive(Clone, Copy, Debug, PartialEq, Eq, Structural)]
pub enum GameError {
    /// The move is not among the legal moves of the side to play.
    IllegalMove,
    /// The coordinate lies off the board.
    OutOfBounds,
}

/// What applying a move did.
#[derive(Clone, Copy, Debug, PartialEq, Eq, Structural)]
pub struct MoveResult {
    /// The move that was applied.
    pub mv: Move,
    /// Whether the moved piece stands on the far rank of its colour.
    pub crowned: bool,
}

/// One game of draughts. Several games are several values of this type.
pub struct GameEngine {
    board: [Option<GamePiece>; 64],
    current_turn: PieceColor,
    move_count: u32,
}

impl View for GameEngine {
    type V = Position;

    closed spec fn view(&self) -> Position {
        Position {
            squares: self.board@,
            turn: self.current_turn,
            move_count: self.move_count as nat,
        }
    }
}

impl GameEngine {
    /// Every engine stands for a position of 64 squares whose move count
    /// fits the counter.
    pub proof fn view_is_position(&self)
        ensures
            self@.wf(),
            self@.move_count <= u32::MAX,
    {
    }

    /// A game at its start: the starting layout, Black to play, no move
    /// made.
    pub fn new() -> (engine: GameEngine)
        ensures
            engine@ == Position::initial(),
    {
        let mut engine = GameEngine {
            board: [None;64],
            current_turn: PieceColor::Black,
            move_count: 0,
        };
        engine.initialise_pieces();
        assert(engine@.squares =~= Position::initial().squares);
        engine
    }

    /// Puts the 24 starting pieces on their squares. Whatever stood on
    /// those squares is replaced; the other squares, the turn and the move
    /// count stay.
    pub fn initialise_pieces(&mut self)
        ensures
            final(self)@ == old(self)@.with_starting_pieces(),
    {
        let mut col: usize = 0;
        while col < 8
            invariant
                col <= 8,
                self.current_turn == old(self).current_turn,
                self.move_count == old(self).move_count,
                forall|i: int|
                    0 <= i < 64 ==> #[trigger] self.board@[i] == if i < 8 * col {
                        old(self)@.with_starting_pieces().squares[i]
                    } else {
                        old(self).board@[i]
                    },
            decreases 8 - col,
        {
            let mut row: usize = 0;
            while row < 8
                invariant
                    col < 8,
                    row <= 8,
                    self.current_turn == old(self).current_turn,
                    self.move_count == old(self).move_count,
                    forall|i: int|
                        0 <= i < 64 ==> #[trigger] self.board@[i] == if i < 8 * col + row {
                            old(self)@.with_starting_pieces().squares[i]
                        } else {
                            old(self).board@[i]
                        },
                decreases 8 - row,
            {
                assert(square(8 * col + row) == Coordinate(col, row));
                if (col + row) % 2 == 1 {
                    if row <= 2 {
                        self.board[8 * col + row] = Some(GamePiece::new(PieceColor::White));
                    } else if row >= 5 {
                        self.board[8 * col + row] = Some(GamePiece::new(PieceColor::Black));
                    }
                }
                row += 1;
            }
            col += 1;
        }
        assert(self@.squares =~= old(self)@.with_starting_pieces().squares);
    }

    /// Applies `mv` if it is one of the legal moves of the side to play:
    /// the piece goes from `mv.from` to `mv.to`, a jumped piece leaves the
    /// board, the mover is crowned if it now stands on the far rank of its
    /// colour, the turn passes to the other side and the move is counted.
    /// Any other move is refused with `IllegalMove` and changes nothing.
    pub fn move_piece(&mut self, mv: &Move) -> (res: Result<MoveResult, GameError>)
        requires
            old(self)@.legal_moves().contains(*mv) ==> old(self)@.move_count < u32::MAX,
        ensures
            res is Ok <==> old(self)@.is_legal(*mv),
            old(self)@.legal_moves().contains(*mv) ==> res == Ok::<MoveResult, GameError>(
                MoveResult { mv: *mv, crowned: old(self)@.crowning(*mv) },
            ) && final(self)@ == old(self)@.after_move(*mv),
            !old(self)@.legal_moves().contains(*mv) ==> res == Err::<MoveResult, GameError>(
                GameError::IllegalMove,
            ) && final(self)@ == old(self)@,
    {
        let legal_moves = self.legal_moves();
        proof {
            crate::laws::legal_moves_are_the_legal_ones(self@, *mv);
        }
        if !Self::listed(&legal_moves, mv) {
            return Err(GameError::IllegalMove);
        }
        let piece = self.board[8 * mv.from.0 + mv.from.1];
        let midpiece_coordinate = self.midpiece_coordinate(mv.from.0, mv.from.1, mv.to.0, mv.to.1);
        if let Some(mid) = midpiece_coordinate {
            self.place(mid, None);
        }
        self.place(mv.to, piece);
        self.place(mv.from, None);
        let crowned = match piece {
            Some(p) => self.should_crown(p, mv.to),
            None => false,
        };
        if crowned {
            self.crown_piece(mv.to);
        }
        self.advance_turn();
        proof {
            let after = old(self)@.after_move(*mv);
            assert forall|i: int| 0 <= i < 64 implies self@.squares[i] == after.squares[i] by {
                assert(8 * square(i).0 + square(i).1 == i);
            }
            assert(self@.squares =~= after.squares);
        }
        Ok(MoveResult { mv: *mv, crowned })
    }

    /// Whether `mv` occurs in `moves`.
    fn listed(moves: &Vec<Move>, mv: &Move) -> (found: bool)
        ensures
            found == moves@.contains(*mv),
    {
        let mut i: usize = 0;
        while i < moves.len()
            invariant
                i <= moves.len(),
                forall|j: int| 0 <= j < i ==> moves@[j] != *mv,
            decreases moves.len() - i,
        {
            if moves[i] == *mv {
                return true;
            }
            i += 1;
        }
        false
    }

    /// The side to play.
    pub fn current_turn(&self) -> (turn: PieceColor)
        ensures
            turn == self@.turn,
    {
        self.current_turn
    }

    /// The number of moves applied so far.
    pub fn move_count(&self) -> (count: u32)
        ensures
            count == self@.move_count,
    {
        self.move_count
    }

    /// The piece on a square of the board, if any; `OutOfBounds` for a
    /// coordinate off the board.
    pub fn get_piece(&self, loc: Coordinate) -> (res: Result<Option<GamePiece>, GameError>)
        ensures
            loc.on_board() ==> res == Ok::<Option<GamePiece>, GameError>(self@.piece_at(loc)),
            !loc.on_board() ==> res == Err::<Option<GamePiece>, GameError>(GameError::OutOfBounds),
    {
        let x: usize = loc.0;
        let y: usize = loc.1;
        if x > 7 || y > 7 {
            Err(GameError::OutOfBounds)
        } else {
            Ok(self.board[8 * x + y])
        }
    }

    /// The square that a jump from (`fx`, `fy`) to (`tx`, `ty`) passes
    /// over; `None` if the two are not two diagonal steps apart.
    pub fn midpiece_coordinate(&self, fx: usize, fy: usize, tx: usize, ty: usize) -> (mid: Option<
        Coordinate,
    >)
        ensures
            mid == midpiece(Coordinate(fx, fy), Coordinate(tx, ty)),
    {
        if tx >= 2 && tx - 2 == fx {
            if ty >= 2 && ty - 2 == fy {
                return Some(Coordinate(fx + 1, fy + 1));
            } else if fy >= 2 && fy - 2 == ty {
                return Some(Coordinate(fx + 1, fy - 1));
            }
        } else if fx >= 2 && fx - 2 == tx {
            if ty >= 2 && ty - 2 == fy {
                return Some(Coordinate(fx - 1, fy + 1));
            } else if fy >= 2 && fy - 2 == ty {
                return Some(Coordinate(fx - 1, fy - 1));
            }
        }
        None
    }

    /// The legal moves of the side to play: for each square in column-major
    /// order that holds one of its pieces, that piece's plain moves and
    /// then its jumps.
    pub fn legal_moves(&self) -> (moves: Vec<Move>)
        ensures
            moves@ == self@.legal_moves(),
            forall|i: int| 0 <= i < moves@.len() ==> self@.is_legal(#[trigger] moves@[i]),
    {
        let mut moves: Vec<Move> = Vec::new();
        let mut col: usize = 0;
        while col < 8
            invariant
                col <= 8,
                moves@ == self@.moves_upto((8 * col) as nat),
            decreases 8 - col,
        {
            let mut row: usize = 0;
            while row < 8
                invariant
                    col < 8,
                    row <= 8,
                    moves@ == self@.moves_upto((8 * col + row) as nat),
                decreases 8 - row,
            {
                assert(square(8 * col + row) == Coordinate(col, row));
                if let Some(piece) = self.board[8 * col + row] {
                    if piece.color == self.current_turn {
                        let loc = Coordinate(col, row);
                        let mut vmoves = self.valid_moves_from(loc);
                        moves.append(&mut vmoves);
                    }
                }
                row += 1;
            }
            col += 1;
        }
        proof {
            assert forall|i: int| 0 <= i < moves@.len() implies self@.is_legal(
                #[trigger] moves@[i],
            ) by {
                crate::laws::legal_moves_are_the_legal_ones(self@, moves@[i]);
            }
        }
        moves
    }

    /// The moves of the piece on `loc`, whichever side it belongs to: the
    /// candidate plain moves that are valid, then the candidate jumps that
    /// are valid and land on a free square. Empty where `loc` holds no
    /// piece.
    pub fn valid_moves_from(&self, loc: Coordinate) -> (moves: Vec<Move>)
        ensures
            moves@ == self@.moves_from(loc),
    {
        match self.get_piece(loc) {
            Ok(Some(p)) => {
                let mut moves = self.select(p, loc, loc.move_targets_from(), false);
                let mut jumps = self.select(p, loc, loc.jump_targets_from(), true);
                moves.append(&mut jumps);
                moves
            },
            _ => Vec::new(),
        }
    }

    /// Keeps the targets that piece `p` on `from` may go to, as moves.
    fn select(&self, p: GamePiece, from: Coordinate, targets: Vec<Coordinate>, jump: bool) -> (moves:
        Vec<Move>)
        ensures
            moves@ == self@.selected(p, from, targets@, jump),
    {
        let mut moves: Vec<Move> = Vec::new();
        let mut i: usize = 0;
        while i < targets.len()
            invariant
                i <= targets.len(),
                moves@ == self@.selected(p, from, targets@.take(i as int), jump),
            decreases targets.len() - i,
        {
            let to = targets[i];
            let keep = if jump {
                self.valid_jump(&p, &from, &to) && self.is_free(to)
            } else {
                self.valid_move(&p, &from, &to)
            };
            assert(targets@.take(i + 1).drop_last() =~= targets@.take(i as int));
            if keep {
                moves.push(Move { from, to });
            }
            i += 1;
        }
        assert(targets@.take(i as int) =~= targets@);
        moves
    }

    /// Whether `to` is an empty square of the board.
    fn is_free(&self, to: Coordinate) -> (b: bool)
        ensures
            b == self@.free(to),
    {
        match self.get_piece(to) {
            Ok(None) => true,
            _ => false,
        }
    }

    /// Whether a plain move from `from` to `to` is valid: `from` holds a
    /// piece of the side to play and `to` is an empty square of the board.
    pub fn valid_move(&self, _p: &GamePiece, from: &Coordinate, to: &Coordinate) -> (b: bool)
        ensures
            b == self@.valid_move(*from, *to),
    {
        match (self.get_piece(*from), self.get_piece(*to)) {
            (Ok(Some(source)), Ok(None)) => source.color == self.current_turn,
            _ => false,
        }
    }

    /// Whether a jump by piece `p` from `from` to `to` is valid: the two
    /// are two diagonal steps apart and the square between them holds a
    /// piece of the other colour. The landing square is not looked at.
    pub fn valid_jump(&self, p: &GamePiece, from: &Coordinate, to: &Coordinate) -> (b: bool)
        ensures
            b == self@.valid_jump(*p, *from, *to),
    {
        if let Some(mid) = self.midpiece_coordinate(from.0, from.1, to.0, to.1) {
            if let Ok(Some(jumped)) = self.get_piece(mid) {
                return p.color != jumped.color;
            }
        }
        false
    }

    /// Whether the piece on `loc` stands on the far rank of its colour.
    pub fn should_crown(&self, _p: GamePiece, loc: Coordinate) -> (b: bool)
        ensures
            b == self@.crowns(loc),
    {
        match self.get_piece(loc) {
            Ok(Some(p)) => match p.color {
                PieceColor::White => loc.1 == 7,
                PieceColor::Black => loc.1 == 0,
            },
            _ => false,
        }
    }

    /// Puts `piece` on a square of the board.
    fn place(&mut self, loc: Coordinate, piece: Option<GamePiece>)
        requires
            loc.on_board(),
        ensures
            final(self)@ == old(self)@.put(loc, piece),
    {
        self.board[8 * loc.0 + loc.1] = piece;
    }

    /// Crowns the piece on `loc`, if there is one.
    fn crown_piece(&mut self, loc: Coordinate)
        ensures
            final(self)@ == old(self)@.crown(loc),
    {
        if let Ok(Some(p)) = self.get_piece(loc) {
            self.place(loc, Some(GamePiece::crowned(p)));
        }
    }

    /// Passes the turn to the other side and counts the move.
    fn advance_turn(&mut self)
        requires
            old(self)@.move_count < u32::MAX,
        ensures
            final(self)@ == old(self)@.advance(),
    {
        self.move_count = self.move_count + 1;
        match self.current_turn {
            PieceColor::White => self.current_turn = PieceColor::Black,
            PieceColor::Black => self.current_turn = PieceColor::White,
        }
    }
}

} // verus!
