use vstd::prelude::*;

use crate::board::Board;
use crate::server::moves_wf;
use crate::types::{Color, Features, Joever, Move, Piece};

verus! {

/// The authoritative move-legality engine behind a server, seen only
/// through this surface: the coordinator never inspects an engine beyond
/// it, which keeps the protocol engine-agnostic.
///
/// An implementation owes exactly this much: a failed `try_move` changes
/// nothing, and a successful one hands the turn to the other side. An
/// empty `possible_moves` answer is valid (an engine without move
/// generation answers so).
pub trait UniversalGame: Sized {
    /// The engine's internal invariant.
    spec fn wf(&self) -> bool;

    /// The engine's board, row-major, 64 squares.
    spec fn spec_board(&self) -> Seq<Piece>;

    /// The side to move.
    spec fn spec_turn(&self) -> Color;

    /// The game's standing.
    spec fn spec_result(&self) -> Joever;

    /// A fresh game, White to move.
    fn new() -> (g: Self)
        ensures
            g.wf(),
            g.spec_turn() == Color::White,
            g.spec_result() == Joever::Ongoing,
            g.spec_board().len() == 64,
    ;

    /// Applies one move for the side to move, or fails without mutating
    /// anything.
    fn try_move(&mut self, m: Move) -> (r: Result<(), String>)
        requires
            old(self).wf(),
            m.wf(),
            old(self).spec_result() == Joever::Ongoing,
        ensures
            final(self).wf(),
            final(self).spec_board().len() == 64,
            r is Err ==> *final(self) == *old(self),
            r is Ok ==> final(self).spec_turn() == old(self).spec_turn().opposite(),
    ;

    /// A copy of the engine's board.
    fn board(&self) -> (b: Board)
        requires
            self.wf(),
        ensures
            b@ == self.spec_board(),
    ;

    /// The side to move.
    fn turn(&self) -> (c: Color)
        requires
            self.wf(),
        ensures
            c == self.spec_turn(),
    ;

    /// The game's standing.
    fn joever(&self) -> (j: Joever)
        requires
            self.wf(),
        ensures
            j == self.spec_result(),
    ;

    /// The legal moves of the side to move; an exhaustive list or, for an
    /// engine without move generation, the empty list.
    fn possible_moves(&self) -> (v: Vec<Move>)
        requires
            self.wf(),
        ensures
            moves_wf(v@),
    ;

    /// The capabilities the engine advertises at handshake time.
    fn features(&self) -> (v: Vec<Features>);
}

/// The king of colour `c`.
pub open spec fn king_of(c: Color) -> Piece {
    match c {
        Color::White => Piece::WhiteKing,
        Color::Black => Piece::BlackKing,
    }
}

/// Whether the stub engine accepts `m` on board `b` with `t` to move: the
/// move stays on the board, goes somewhere, starts on a piece of the
/// moving side and does not land on one.
pub open spec fn stub_accepts(b: Seq<Piece>, t: Color, m: Move) -> bool {
    &&& m.wf()
    &&& !(m.start_x == m.end_x && m.start_y == m.end_y)
    &&& Board::square_of(b, m.start_x as int, m.start_y as int).spec_color() == Some(t)
    &&& Board::square_of(b, m.end_x as int, m.end_y as int).spec_color() != Some(t)
}

/// The stub engine's board after applying `m`: the start piece lands on
/// the end square and the start square empties.
pub open spec fn stub_board_after(b: Seq<Piece>, m: Move) -> Seq<Piece> {
    b.update(
        m.end_y as int * 8 + m.end_x as int,
        b[m.start_y as int * 8 + m.start_x as int],
    ).update(m.start_y as int * 8 + m.start_x as int, Piece::Empty)
}

/// The stub engine's result after applying `m`: capturing the opposing
/// king wins, anything else leaves the game running.
pub open spec fn stub_result_after(b: Seq<Piece>, t: Color, m: Move) -> Joever {
    if b[m.end_y as int * 8 + m.end_x as int] == king_of(t.opposite()) {
        Joever::win_for(t)
    } else {
        Joever::Ongoing
    }
}

/// The reason the stub engine gives for refusing `m`.
pub open spec fn stub_reject_reason(b: Seq<Piece>, t: Color, m: Move) -> Seq<char> {
    if m.start_x == m.end_x && m.start_y == m.end_y {
        "the move goes nowhere"@
    } else if Board::square_of(b, m.start_x as int, m.start_y as int).spec_color() != Some(t) {
        "no piece of the moving side on the start square"@
    } else {
        "the end square holds the moving side's own piece"@
    }
}

/// A minimal engine: it knows nothing of chess beyond pieces having
/// colours. It accepts any move of an own piece to a square not held by
/// an own piece, moves the piece, and calls the game won when the
/// opposing king is captured. Promotion requests are ignored: the moved
/// piece stays what it was. It advertises no features and generates no
/// move lists. It exists so that the protocol can be driven and tested
/// end to end without an outside rules library.
pub struct StubEngine {
    board: Board,
    turn: Color,
    result: Joever,
}

impl StubEngine {
    /// Applies one move under the stub's rule, or reports exactly why it
    /// refuses; a refusal changes nothing.
    pub fn apply(&mut self, m: Move) -> (r: Result<(), String>)
        requires
            old(self).wf(),
            m.wf(),
            old(self).spec_result() == Joever::Ongoing,
        ensures
            final(self).wf(),
            r is Ok <==> stub_accepts(old(self).spec_board(), old(self).spec_turn(), m),
            r is Ok ==> {
                &&& final(self).spec_board() == stub_board_after(old(self).spec_board(), m)
                &&& final(self).spec_turn() == old(self).spec_turn().opposite()
                &&& final(self).spec_result() == stub_result_after(
                    old(self).spec_board(),
                    old(self).spec_turn(),
                    m,
                )
            },
            match r {
                Ok(_) => true,
                Err(e) => {
                    &&& *final(self) == *old(self)
                    &&& e@ == stub_reject_reason(old(self).spec_board(), old(self).spec_turn(), m)
                },
            },
    {
        if m.start_x == m.end_x && m.start_y == m.end_y {
            let reason: &str = "the move goes nowhere";
            return Err(reason.to_owned());
        }
        let start = self.board.at(m.start_x, m.start_y);
        let start_color = crate::types::piece_color(&start);
        let own_start = match start_color {
            Some(c) => c == self.turn,
            None => false,
        };
        if !own_start {
            let reason: &str = "no piece of the moving side on the start square";
            return Err(reason.to_owned());
        }
        let end = self.board.at(m.end_x, m.end_y);
        let own_end = match crate::types::piece_color(&end) {
            Some(c) => c == self.turn,
            None => false,
        };
        if own_end {
            let reason: &str = "the end square holds the moving side's own piece";
            return Err(reason.to_owned());
        }
        let king_taken = match self.turn {
            Color::White => matches!(end, Piece::BlackKing),
            Color::Black => matches!(end, Piece::WhiteKing),
        };
        self.board.set_at(m.end_x, m.end_y, start);
        self.board.set_at(m.start_x, m.start_y, Piece::Empty);
        if king_taken {
            self.result = crate::types::win_for(&self.turn);
        }
        self.turn = crate::types::oposite_color(&self.turn);
        Ok(())
    }
}

impl UniversalGame for StubEngine {
    closed spec fn wf(&self) -> bool {
        self.board@.len() == 64
    }

    closed spec fn spec_board(&self) -> Seq<Piece> {
        self.board@
    }

    closed spec fn spec_turn(&self) -> Color {
        self.turn
    }

    closed spec fn spec_result(&self) -> Joever {
        self.result
    }

    fn new() -> (g: Self) {
        StubEngine { board: Board::starting(), turn: Color::White, result: Joever::Ongoing }
    }

    fn try_move(&mut self, m: Move) -> (r: Result<(), String>) {
        self.apply(m)
    }

    fn board(&self) -> (b: Board) {
        self.board.clone()
    }

    fn turn(&self) -> (c: Color) {
        self.turn
    }

    fn joever(&self) -> (j: Joever) {
        self.result
    }

    fn possible_moves(&self) -> (v: Vec<Move>) {
        Vec::new()
    }

    fn features(&self) -> (v: Vec<Features>) {
        Vec::new()
    }
}

} // verus!
