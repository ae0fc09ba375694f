//! The values that a game is made of: colours, pieces, squares and moves,
//! and the geometry of diagonal steps and jumps.

use vstd::prelude::*;

verus! {

/// The two sides. White starts on the low rows and heads for row 7,
/// Black starts on the high rows and heads for row 0.
#[derive(Clone, Copy, Debug, PartialEq, Eq, Structural)]
pub enum PieceColor {
    White,
    Black,
}

impl PieceColor {
    /// The other side.
    pub open spec fn opponent(self) -> PieceColor {
        match self {
            PieceColor::White => PieceColor::Black,
            PieceColor::Black => PieceColor::White,
        }
    }
}

/// A piece on the board. Crowning is one-way: nothing turns a crowned
/// piece back into a plain one.
#[derive(Clone, Copy, Debug, PartialEq, Eq, Structural)]
pub struct GamePiece {
    pub color: PieceColor,
    pub crowned: bool,
}

impl GamePiece {
    /// A plain piece of the given colour.
    pub fn new(color: PieceColor) -> (piece: GamePiece)
        ensures
            piece == (GamePiece { color, crowned: false }),
    {
        GamePiece { color, crowned: false }
    }

    /// The crowned piece of the same colour.
    pub open spec fn promoted(self) -> GamePiece {
        GamePiece { color: self.color, crowned: true }
    }

    /// A crowned copy of `p`.
    pub fn crowned(p: GamePiece) -> (piece: GamePiece)
        ensures
            piece == p.promoted(),
    {
        GamePiece { color: p.color, crowned: true }
    }
}

/// A square, as (column, row). The board holds the squares with both
/// parts in 0..=7.
#[derive(Clone, Copy, Debug, PartialEq, Eq, Structural)]
pub struct Coordinate(pub usize, pub usize);

impl Coordinate {
    /// Whether the square lies on the 8 by 8 board.
    pub open spec fn on_board(self) -> bool {
        self.0 <= 7 && self.1 <= 7
    }

    /// Whether the square `dx` columns and `dy` rows away lies on the board.
    pub open spec fn reaches(self, dx: int, dy: int) -> bool {
        0 <= self.0 + dx <= 7 && 0 <= self.1 + dy <= 7
    }

    /// The square `dx` columns and `dy` rows away.
    pub open spec fn shifted(self, dx: int, dy: int) -> Coordinate
        recommends
            self.reaches(dx, dy),
    {
        Coordinate((self.0 + dx) as usize, (self.1 + dy) as usize)
    }

    /// The square at the given offset if it lies on the board, as a
    /// sequence of one or no element.
    pub open spec fn target(self, dx: int, dy: int) -> Seq<Coordinate> {
        if self.reaches(dx, dy) {
            seq![self.shifted(dx, dy)]
        } else {
            Seq::empty()
        }
    }

    /// The diagonal neighbours of this square that lie on the board, in the
    /// order in which they are tried.
    pub open spec fn move_targets(self) -> Seq<Coordinate> {
        self.target(-1, 1) + self.target(1, 1) + self.target(1, -1) + self.target(-1, -1)
    }

    /// The squares two diagonal steps away that lie on the board, in the
    /// order in which they are tried.
    pub open spec fn jump_targets(self) -> Seq<Coordinate> {
        self.target(2, -2) + self.target(2, 2) + self.target(-2, -2) + self.target(-2, 2)
    }

    /// Whether `other` is one diagonal step away.
    pub open spec fn steps_to(self, other: Coordinate) -> bool {
        (other.0 == self.0 + 1 || other.0 + 1 == self.0)
            && (other.1 == self.1 + 1 || other.1 + 1 == self.1)
    }

    /// Whether `other` is two diagonal steps away.
    pub open spec fn jumps_to(self, other: Coordinate) -> bool {
        (other.0 == self.0 + 2 || other.0 + 2 == self.0)
            && (other.1 == self.1 + 2 || other.1 + 2 == self.1)
    }

    /// Whether the square lies on the board.
    pub fn is_on_board(&self) -> (b: bool)
        ensures
            b == self.on_board(),
    {
        self.0 <= 7 && self.1 <= 7
    }

    /// The candidate destinations of a plain move from this square.
    pub fn move_targets_from(&self) -> (out: Vec<Coordinate>)
        ensures
            out@ == self.move_targets(),
    {
        let x: usize = self.0;
        let y: usize = self.1;
        let mut out: Vec<Coordinate> = Vec::new();
        if 1 <= x && x <= 8 && y <= 6 {
            out.push(Coordinate(x - 1, y + 1));
        }
        if x <= 6 && y <= 6 {
            out.push(Coordinate(x + 1, y + 1));
        }
        if x <= 6 && 1 <= y && y <= 8 {
            out.push(Coordinate(x + 1, y - 1));
        }
        if 1 <= x && x <= 8 && 1 <= y && y <= 8 {
            out.push(Coordinate(x - 1, y - 1));
        }
        assert(out@ =~= self.move_targets());
        out
    }

    /// The candidate destinations of a jump from this square.
    pub fn jump_targets_from(&self) -> (out: Vec<Coordinate>)
        ensures
            out@ == self.jump_targets(),
    {
        let x: usize = self.0;
        let y: usize = self.1;
        let mut out: Vec<Coordinate> = Vec::new();
        if x <= 5 && 2 <= y && y <= 9 {
            out.push(Coordinate(x + 2, y - 2));
        }
        if x <= 5 && y <= 5 {
            out.push(Coordinate(x + 2, y + 2));
        }
        if 2 <= x && x <= 9 && 2 <= y && y <= 9 {
            out.push(Coordinate(x - 2, y - 2));
        }
        if 2 <= x && x <= 9 && y <= 5 {
            out.push(Coordinate(x - 2, y + 2));
        }
        assert(out@ =~= self.jump_targets());
        out
    }
}

/// A relocation of the piece on `from` to `to`.
#[derive(Clone, Copy, Debug, PartialEq, Eq, Structural)]
pub struct Move {
    pub from: Coordinate,
    pub to: Coordinate,
}

impl Move {
    /// The move between two squares given as (column, row) pairs.
    pub fn new(from: (usize, usize), to: (usize, usize)) -> (mv: Move)
        ensures
            mv == (Move { from: Coordinate(from.0, from.1), to: Coordinate(to.0, to.1) }),
    {
        Move { from: Coordinate(from.0, from.1), to: Coordinate(to.0, to.1) }
    }
}

} // verus!
