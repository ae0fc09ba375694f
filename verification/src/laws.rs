//! What holds of every position and every move, proved from the rules.

use vstd::prelude::*;
use vstd::seq_lib::{lemma_seq_concat_contains_all_elements, lemma_seq_contains_after_push};
use crate::board::{Coordinate, GamePiece, Move, PieceColor};
use crate::position::{Position, midpiece, square};

verus! {

/// The candidate destinations of a plain move are the squares of the board
/// one diagonal step away.
pub proof fn move_targets_are_the_steps(loc: Coordinate, t: Coordinate)
    ensures
        loc.move_targets().contains(t) <==> loc.steps_to(t) && t.on_board(),
{
    let a = loc.target(-1, 1);
    let b = loc.target(1, 1);
    let c = loc.target(1, -1);
    let d = loc.target(-1, -1);
    lemma_seq_concat_contains_all_elements(a + b + c, d, t);
    lemma_seq_concat_contains_all_elements(a + b, c, t);
    lemma_seq_concat_contains_all_elements(a, b, t);
    single_target(loc, -1, 1, t);
    single_target(loc, 1, 1, t);
    single_target(loc, 1, -1, t);
    single_target(loc, -1, -1, t);
}

/// The candidate destinations of a jump are the squares of the board two
/// diagonal steps away.
pub proof fn jump_targets_are_the_jumps(loc: Coordinate, t: Coordinate)
    ensures
        loc.jump_targets().contains(t) <==> loc.jumps_to(t) && t.on_board(),
{
    let a = loc.target(2, -2);
    let b = loc.target(2, 2);
    let c = loc.target(-2, -2);
    let d = loc.target(-2, 2);
    lemma_seq_concat_contains_all_elements(a + b + c, d, t);
    lemma_seq_concat_contains_all_elements(a + b, c, t);
    lemma_seq_concat_contains_all_elements(a, b, t);
    single_target(loc, 2, -2, t);
    single_target(loc, 2, 2, t);
    single_target(loc, -2, -2, t);
    single_target(loc, -2, 2, t);
}

/// One offset yields the shifted square, and only where it lies on the
/// board.
proof fn single_target(loc: Coordinate, dx: int, dy: int, t: Coordinate)
    ensures
        loc.target(dx, dy).contains(t) <==> loc.reaches(dx, dy) && t == loc.shifted(dx, dy),
{
    if loc.reaches(dx, dy) {
        assert(loc.target(dx, dy)[0] == loc.shifted(dx, dy));
    }
}

/// A move is selected exactly if it starts on `from`, goes to one of the
/// targets and is admitted.
pub proof fn selected_holds(
    pos: Position,
    p: GamePiece,
    from: Coordinate,
    targets: Seq<Coordinate>,
    jump: bool,
    mv: Move,
)
    ensures
        pos.selected(p, from, targets, jump).contains(mv) <==> mv.from == from && targets.contains(
            mv.to,
        ) && pos.admits(p, from, mv.to, jump),
    decreases targets.len(),
{
    if targets.len() > 0 {
        let front = targets.drop_last();
        let t = targets.last();
        selected_holds(pos, p, from, front, jump, mv);
        assert(targets =~= front.push(t));
        lemma_seq_contains_after_push(front, t, mv.to);
        lemma_seq_contains_after_push(
            pos.selected(p, from, front, jump),
            Move { from, to: t },
            mv,
        );
    }
}

/// A move is among those of the first `n` squares exactly if one of these
/// squares contributes it.
pub proof fn moves_upto_holds(pos: Position, n: nat, mv: Move)
    ensures
        pos.moves_upto(n).contains(mv) <==> exists|i: int|
            0 <= i < n && #[trigger] pos.moves_of_square(i).contains(mv),
    decreases n,
{
    if n > 0 {
        moves_upto_holds(pos, (n - 1) as nat, mv);
        lemma_seq_concat_contains_all_elements(
            pos.moves_upto((n - 1) as nat),
            pos.moves_of_square(n - 1),
            mv,
        );
        if pos.moves_upto(n).contains(mv) {
            if pos.moves_of_square(n - 1).contains(mv) {
            } else {
                let i = choose|i: int|
                    0 <= i < n - 1 && #[trigger] pos.moves_of_square(i).contains(mv);
                assert(0 <= i < n && pos.moves_of_square(i).contains(mv));
            }
        }
    }
}

/// The moves of the piece on `loc` are those that start there and either
/// step to a free square or jump over a piece of another colour to a free
/// square.
pub proof fn moves_from_holds(pos: Position, loc: Coordinate, mv: Move)
    requires
        pos.wf(),
    ensures
        pos.moves_from(loc).contains(mv) <==> mv.from == loc && (pos.piece_at(loc) matches Some(p)
            && ((loc.steps_to(mv.to) && pos.valid_move(loc, mv.to)) || (pos.valid_jump(
            p,
            loc,
            mv.to,
        ) && pos.free(mv.to)))),
{
    match pos.piece_at(loc) {
        Some(p) => {
            let plain = pos.selected(p, loc, loc.move_targets(), false);
            let jumps = pos.selected(p, loc, loc.jump_targets(), true);
            lemma_seq_concat_contains_all_elements(plain, jumps, mv);
            selected_holds(pos, p, loc, loc.move_targets(), false, mv);
            selected_holds(pos, p, loc, loc.jump_targets(), true, mv);
            move_targets_are_the_steps(loc, mv.to);
            jump_targets_are_the_jumps(loc, mv.to);
        },
        None => {},
    }
}

/// The enumeration lists exactly the moves that the rule allows: a move
/// is among the legal moves if and only if it takes a piece of the side to
/// play to a free square, by one diagonal step or by a jump over a piece of
/// the other side.
pub proof fn legal_moves_are_the_legal_ones(pos: Position, mv: Move)
    requires
        pos.wf(),
    ensures
        pos.legal_moves().contains(mv) <==> pos.is_legal(mv),
{
    moves_upto_holds(pos, 64, mv);
    if pos.legal_moves().contains(mv) {
        let i = choose|i: int| 0 <= i < 64 && #[trigger] pos.moves_of_square(i).contains(mv);
        moves_from_holds(pos, square(i), mv);
    }
    if pos.is_legal(mv) {
        let i = 8 * mv.from.0 + mv.from.1;
        assert(square(i) == mv.from);
        moves_from_holds(pos, mv.from, mv);
        assert(pos.moves_of_square(i).contains(mv));
    }
}

/// Every listed move starts on a square that holds a piece of the side to
/// play and ends on an empty square of the board.
pub proof fn listed_moves_take_own_piece_to_empty_square(pos: Position, mv: Move)
    requires
        pos.wf(),
        pos.legal_moves().contains(mv),
    ensures
        mv.from.on_board(),
        mv.to.on_board(),
        pos.piece_at(mv.from) matches Some(p) && p.color == pos.turn,
        pos.piece_at(mv.to) is None,
        mv.from != mv.to,
{
    legal_moves_are_the_legal_ones(pos, mv);
}

/// What a legal move leaves on each square of the board: nothing on the
/// square it started from, the mover on the square it went to, nothing on
/// the square it jumped over, and on every other square what stood there
/// before.
pub proof fn legal_move_changes_these_squares(pos: Position, mv: Move, c: Coordinate)
    requires
        pos.wf(),
        pos.is_legal(mv),
        c.on_board(),
    ensures
        pos.after_move(mv).wf(),
        pos.after_move(mv).piece_at(c) == if c == mv.from {
            None
        } else if c == mv.to {
            pos.landed(mv)
        } else if midpiece(mv.from, mv.to) == Some(c) {
            None
        } else {
            pos.piece_at(c)
        },
{
    let i = 8 * c.0 + c.1;
    assert(square(i) == c);
}

/// A jump removes the piece on the square between its ends, empties the
/// square it started from and puts the mover, in its own colour, on the
/// square it went to.
pub proof fn jump_captures(pos: Position, mv: Move, mid: Coordinate)
    requires
        pos.wf(),
        pos.is_legal(mv),
        midpiece(mv.from, mv.to) == Some(mid),
    ensures
        pos.piece_at(mid) matches Some(q) && q.color != pos.turn,
        pos.after_move(mv).piece_at(mid) is None,
        pos.after_move(mv).piece_at(mv.from) is None,
        pos.after_move(mv).piece_at(mv.to) matches Some(q) && q.color == pos.turn,
        pos.after_move(mv).piece_at(mv.to) == pos.landed(mv),
{
    legal_move_changes_these_squares(pos, mv, mid);
    legal_move_changes_these_squares(pos, mv, mv.from);
    legal_move_changes_these_squares(pos, mv, mv.to);
}

/// A legal move crowns the mover exactly if it was crowned already or has
/// reached the far rank of its colour, and never changes its colour.
pub proof fn mover_is_crowned_on_far_rank(pos: Position, mv: Move)
    requires
        pos.wf(),
        pos.is_legal(mv),
    ensures
        pos.piece_at(mv.from) matches Some(p) && pos.after_move(mv).piece_at(mv.to) matches Some(q)
            && q.color == p.color && (q.crowned <==> p.crowned || (p.color == PieceColor::White
            && mv.to.1 == 7) || (p.color == PieceColor::Black && mv.to.1 == 0)),
{
    legal_move_changes_these_squares(pos, mv, mv.to);
}

/// A legal move takes no crown away and gives none but to the mover: a
/// piece that does not move is after the move what it was before, unless
/// it was jumped over and is gone.
pub proof fn crowns_are_kept(pos: Position, mv: Move, c: Coordinate)
    requires
        pos.wf(),
        pos.is_legal(mv),
        c.on_board(),
        c != mv.from,
        c != mv.to,
    ensures
        pos.after_move(mv).piece_at(c) == pos.piece_at(c) || (midpiece(mv.from, mv.to) == Some(c)
            && pos.after_move(mv).piece_at(c) is None),
{
    legal_move_changes_these_squares(pos, mv, c);
}

/// A legal move passes the turn to the other side and adds one to the
/// move count.
pub proof fn move_passes_the_turn(pos: Position, mv: Move)
    ensures
        pos.after_move(mv).turn != pos.turn,
        pos.after_move(mv).turn == pos.turn.opponent(),
        pos.after_move(mv).move_count == pos.move_count + 1,
{
}

/// After a run of accepted moves the move count has grown by their number,
/// the position is still one of 64 squares, and each move of the run
/// handed the turn to the side that did not have it before.
pub proof fn turns_alternate(pos: Position, moves: Seq<Move>)
    requires
        pos.wf(),
        pos.accepts_all(moves),
    ensures
        pos.after_moves(moves).wf(),
        pos.after_moves(moves).move_count == pos.move_count + moves.len(),
        pos.after_moves(moves).turn == if moves.len() % 2 == 0 {
            pos.turn
        } else {
            pos.turn.opponent()
        },
        forall|i: int|
            0 <= i < moves.len() ==> (#[trigger] pos.after_moves(moves.take(i + 1))).turn
                != pos.after_moves(moves.take(i)).turn,
    decreases moves.len(),
{
    if moves.len() > 0 {
        let front = moves.drop_last();
        assert forall|i: int| 0 <= i < front.len() implies #[trigger] pos.after_moves(
            front.take(i),
        ).is_legal(front[i]) by {
            assert(front.take(i) =~= moves.take(i));
        }
        turns_alternate(pos, front);
        let before = pos.after_moves(front);
        assert(moves.take(moves.len() - 1) =~= front);
        assert(before.is_legal(moves.last()));
        legal_move_changes_these_squares(before, moves.last(), Coordinate(0, 0));
        assert forall|i: int| 0 <= i < moves.len() implies (#[trigger] pos.after_moves(
            moves.take(i + 1),
        )).turn != pos.after_moves(moves.take(i)).turn by {
            if i < moves.len() - 1 {
                assert(moves.take(i + 1) =~= front.take(i + 1));
                assert(moves.take(i) =~= front.take(i));
            } else {
                assert(moves.take(i + 1) =~= moves);
            }
        }
    }
}

/// The starting position holds twelve pieces of each colour.
pub proof fn starting_position_has_twelve_each()
    ensures
        Position::initial().wf(),
        Position::initial().count(PieceColor::White) == 12,
        Position::initial().count(PieceColor::Black) == 12,
{
    let start = Position::initial();
    assert forall|color: PieceColor| #[trigger] start.count(color) == 12 by {
        starting_column_count(color, 0);
        starting_column_count(color, 1);
        starting_column_count(color, 2);
        starting_column_count(color, 3);
        starting_column_count(color, 4);
        starting_column_count(color, 5);
        starting_column_count(color, 6);
        starting_column_count(color, 7);
        assert(start.count_upto(color, 0) == 0);
    }
}

/// Column `x` of the starting position holds two pieces of a colour or
/// one, in turn.
proof fn starting_column_count(color: PieceColor, x: int)
    requires
        0 <= x < 8,
    ensures
        Position::initial().count_upto(color, (8 * x + 8) as nat) == Position::initial().count_upto(
            color,
            (8 * x) as nat,
        ) + (if (color == PieceColor::White) == (x % 2 == 1) {
            2nat
        } else {
            1nat
        }),
{
    starting_square_count(color, x, 0);
    starting_square_count(color, x, 1);
    starting_square_count(color, x, 2);
    starting_square_count(color, x, 3);
    starting_square_count(color, x, 4);
    starting_square_count(color, x, 5);
    starting_square_count(color, x, 6);
    starting_square_count(color, x, 7);
}

/// The square in column `x` and row `y` adds one to the count of a colour
/// if the starting layout puts a piece of that colour there.
proof fn starting_square_count(color: PieceColor, x: int, y: int)
    requires
        0 <= x < 8,
        0 <= y < 8,
    ensures
        Position::initial().count_upto(color, (8 * x + y + 1) as nat)
            == Position::initial().count_upto(color, (8 * x + y) as nat) + (if (x + y) % 2 == 1 && (
            if color == PieceColor::White {
                y <= 2
            } else {
                y >= 5
            }) {
            1nat
        } else {
            0nat
        }),
{
    assert(square(8 * x + y) == Coordinate(x as usize, y as usize));
}

} // verus!
