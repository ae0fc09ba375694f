//! The mathematical model of a game: what stands on each square, whose
//! turn it is and how many moves were made, together with the rules that
//! say which moves are legal and what a legal move does.

use vstd::prelude::*;
use crate::board::{Coordinate, GamePiece, Move, PieceColor};

verus! {

/// The state of a game. `squares` lists the 64 squares column by column:
/// the square in column `x` and row `y` is entry `8 * x + y`.
pub struct Position {
    pub squares: Seq<Option<GamePiece>>,
    pub turn: PieceColor,
    pub move_count: nat,
}

/// The square strictly between the two ends of a jump: `None` unless `to`
/// lies exactly two diagonal steps from `from`.
pub open spec fn midpiece(from: Coordinate, to: Coordinate) -> Option<Coordinate> {
    if from.jumps_to(to) {
        Some(Coordinate(((from.0 + to.0) / 2) as usize, ((from.1 + to.1) / 2) as usize))
    } else {
        None
    }
}

/// The square with the given index in column-major order.
pub open spec fn square(i: int) -> Coordinate {
    Coordinate((i / 8) as usize, (i % 8) as usize)
}

/// Whether `row` is the rank on which a piece of `color` is crowned: row 7
/// for White, row 0 for Black.
pub open spec fn far_rank(color: PieceColor, row: usize) -> bool {
    match color {
        PieceColor::White => row == 7,
        PieceColor::Black => row == 0,
    }
}

/// What the starting layout puts on a square, if anything: White on the
/// dark squares of rows 0 to 2, Black on those of rows 5 to 7.
pub open spec fn starting_piece(c: Coordinate) -> Option<GamePiece> {
    if c.on_board() && (c.0 + c.1) % 2 == 1 && c.1 <= 2 {
        Some(GamePiece { color: PieceColor::White, crowned: false })
    } else if c.on_board() && (c.0 + c.1) % 2 == 1 && c.1 >= 5 {
        Some(GamePiece { color: PieceColor::Black, crowned: false })
    } else {
        None
    }
}

impl Position {
    /// A position has exactly 64 squares.
    pub open spec fn wf(self) -> bool {
        self.squares.len() == 64
    }

    /// The piece on a square; nothing stands off the board.
    pub open spec fn piece_at(self, c: Coordinate) -> Option<GamePiece> {
        if c.on_board() {
            self.squares[8 * c.0 + c.1]
        } else {
            None
        }
    }

    /// The position before the first move: the starting layout, Black to
    /// play.
    pub open spec fn initial() -> Position {
        Position {
            squares: Seq::new(64, |i: int| starting_piece(square(i))),
            turn: PieceColor::Black,
            move_count: 0,
        }
    }

    /// This position with the 24 starting pieces put on their squares and
    /// every other square left as it is.
    pub open spec fn with_starting_pieces(self) -> Position {
        Position {
            squares: Seq::new(
                64,
                |i: int|
                    if starting_piece(square(i)) is Some {
                        starting_piece(square(i))
                    } else {
                        self.squares[i]
                    },
            ),
            turn: self.turn,
            move_count: self.move_count,
        }
    }

    /// A plain move is valid when `from` holds a piece of the side to play
    /// and `to` is an empty square of the board.
    pub open spec fn valid_move(self, from: Coordinate, to: Coordinate) -> bool {
        &&& from.on_board()
        &&& to.on_board()
        &&& self.piece_at(from) matches Some(p) && p.color == self.turn
        &&& self.piece_at(to) is None
    }

    /// A jump by piece `p` is valid when the square it passes over holds a
    /// piece of the other colour.
    pub open spec fn valid_jump(self, p: GamePiece, from: Coordinate, to: Coordinate) -> bool {
        match midpiece(from, to) {
            Some(mid) => match self.piece_at(mid) {
                Some(q) => q.color != p.color,
                None => false,
            },
            None => false,
        }
    }

    /// Whether a piece may land on `to`: an empty square of the board.
    pub open spec fn free(self, to: Coordinate) -> bool {
        to.on_board() && self.piece_at(to) is None
    }

    /// Whether the candidate destination `to` is kept for piece `p` on
    /// `from`: as a jump when `jump` is set, as a plain move otherwise. A
    /// jump must land on a free square.
    pub open spec fn admits(self, p: GamePiece, from: Coordinate, to: Coordinate, jump: bool) -> bool {
        if jump {
            self.valid_jump(p, from, to) && self.free(to)
        } else {
            self.valid_move(from, to)
        }
    }

    /// The moves from `from` to those of `targets` that are admitted, in
    /// the order of `targets`.
    pub open spec fn selected(
        self,
        p: GamePiece,
        from: Coordinate,
        targets: Seq<Coordinate>,
        jump: bool,
    ) -> Seq<Move>
        decreases targets.len(),
    {
        if targets.len() == 0 {
            Seq::empty()
        } else {
            let rest = self.selected(p, from, targets.drop_last(), jump);
            if self.admits(p, from, targets.last(), jump) {
                rest.push(Move { from, to: targets.last() })
            } else {
                rest
            }
        }
    }

    /// The moves of the piece on `loc`: its plain moves, then its jumps.
    /// Empty where `loc` holds no piece.
    pub open spec fn moves_from(self, loc: Coordinate) -> Seq<Move> {
        match self.piece_at(loc) {
            Some(p) => self.selected(p, loc, loc.move_targets(), false) + self.selected(
                p,
                loc,
                loc.jump_targets(),
                true,
            ),
            None => Seq::empty(),
        }
    }

    /// What square number `i` adds to the legal moves: the moves of its
    /// piece if that piece belongs to the side to play.
    pub open spec fn moves_of_square(self, i: int) -> Seq<Move> {
        match self.piece_at(square(i)) {
            Some(p) => if p.color == self.turn {
                self.moves_from(square(i))
            } else {
                Seq::empty()
            },
            None => Seq::empty(),
        }
    }

    /// The legal moves from the first `n` squares in column-major order.
    pub open spec fn moves_upto(self, n: nat) -> Seq<Move>
        decreases n,
    {
        if n == 0 {
            Seq::empty()
        } else {
            self.moves_upto((n - 1) as nat) + self.moves_of_square(n - 1)
        }
    }

    /// The legal moves of the side to play, in enumeration order.
    pub open spec fn legal_moves(self) -> Seq<Move> {
        self.moves_upto(64)
    }

    /// The rule that the enumeration implements: the piece on `from`
    /// belongs to the side to play, `to` is a free square, and the move is
    /// either one diagonal step or a jump over a piece of the other colour.
    pub open spec fn is_legal(self, mv: Move) -> bool {
        &&& mv.from.on_board()
        &&& self.piece_at(mv.from) matches Some(p) && p.color == self.turn
        &&& self.free(mv.to)
        &&& (mv.from.steps_to(mv.to) || (midpiece(mv.from, mv.to) matches Some(mid)
            && self.piece_at(mid) matches Some(q) && q.color != self.turn))
    }

    /// Whether the piece on `loc` stands on the far rank of its colour:
    /// row 7 for White, row 0 for Black.
    pub open spec fn crowns(self, loc: Coordinate) -> bool {
        match self.piece_at(loc) {
            Some(p) => far_rank(p.color, loc.1),
            None => false,
        }
    }

    /// This position with `piece` put on square `c` of the board.
    pub open spec fn put(self, c: Coordinate, piece: Option<GamePiece>) -> Position
        recommends
            c.on_board(),
    {
        Position {
            squares: self.squares.update(8 * c.0 + c.1, piece),
            turn: self.turn,
            move_count: self.move_count,
        }
    }

    /// This position with the piece on `loc`, if there is one, crowned.
    pub open spec fn crown(self, loc: Coordinate) -> Position {
        match self.piece_at(loc) {
            Some(p) => self.put(loc, Some(p.promoted())),
            None => self,
        }
    }

    /// This position with the turn passed to the other side and one more
    /// move counted.
    pub open spec fn advance(self) -> Position {
        Position {
            squares: self.squares,
            turn: self.turn.opponent(),
            move_count: self.move_count + 1,
        }
    }

    /// Whether applying `mv` crowns the mover: it lands on the far rank of
    /// its colour.
    pub open spec fn crowning(self, mv: Move) -> bool {
        match self.piece_at(mv.from) {
            Some(p) => far_rank(p.color, mv.to.1),
            None => false,
        }
    }

    /// The piece that stands on `mv.to` once `mv` is applied: the mover,
    /// crowned if it reached the far rank of its colour.
    pub open spec fn landed(self, mv: Move) -> Option<GamePiece> {
        match self.piece_at(mv.from) {
            Some(p) => if far_rank(p.color, mv.to.1) {
                Some(p.promoted())
            } else {
                Some(p)
            },
            None => None,
        }
    }

    /// What stands on square `c` once the legal move `mv` is applied:
    /// nothing where the mover started, the mover where it went, nothing on
    /// the square it jumped over, and elsewhere what stood there before.
    pub open spec fn piece_after(self, mv: Move, c: Coordinate) -> Option<GamePiece> {
        if c == mv.from {
            None
        } else if c == mv.to {
            self.landed(mv)
        } else if midpiece(mv.from, mv.to) == Some(c) {
            None
        } else {
            self.piece_at(c)
        }
    }

    /// The position that a legal move leads to: the squares change as
    /// `piece_after` says, the turn passes to the other side and the move is
    /// counted.
    pub open spec fn after_move(self, mv: Move) -> Position {
        Position {
            squares: Seq::new(64, |i: int| self.piece_after(mv, square(i))),
            turn: self.turn.opponent(),
            move_count: self.move_count + 1,
        }
    }

    /// The position after the moves of `moves` were applied one after the
    /// other.
    pub open spec fn after_moves(self, moves: Seq<Move>) -> Position
        decreases moves.len(),
    {
        if moves.len() == 0 {
            self
        } else {
            self.after_moves(moves.drop_last()).after_move(moves.last())
        }
    }

    /// Whether each of `moves` is legal in the position that the moves
    /// before it lead to.
    pub open spec fn accepts_all(self, moves: Seq<Move>) -> bool {
        forall|i: int|
            0 <= i < moves.len() ==> #[trigger] self.after_moves(moves.take(i)).is_legal(moves[i])
    }

    /// How many of the first `n` squares hold a piece of `color`.
    pub open spec fn count_upto(self, color: PieceColor, n: nat) -> nat
        decreases n,
    {
        if n == 0 {
            0
        } else {
            let here: nat = match self.squares[n - 1] {
                Some(p) => if p.color == color {
                    1
                } else {
                    0
                },
                None => 0,
            };
            self.count_upto(color, (n - 1) as nat) + here
        }
    }

    /// How many pieces of `color` stand on the board.
    pub open spec fn count(self, color: PieceColor) -> nat {
        self.count_upto(color, 64)
    }
}

} // verus!
