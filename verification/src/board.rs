use vstd::prelude::*;

use crate::types::Piece;

verus! {

/// The canonical occupant of square `(x, y)` in the starting position:
/// White's home rank is rank 0, Black's is rank 7.
pub open spec fn start_square(x: int, y: int) -> Piece {
    if y == 0 {
        white_back_rank(x)
    } else if y == 1 {
        Piece::WhitePawn
    } else if y == 6 {
        Piece::BlackPawn
    } else if y == 7 {
        black_back_rank(x)
    } else {
        Piece::Empty
    }
}

/// White's back-rank piece on file `x`.
pub open spec fn white_back_rank(x: int) -> Piece {
    if x == 0 || x == 7 {
        Piece::WhiteRook
    } else if x == 1 || x == 6 {
        Piece::WhiteKnight
    } else if x == 2 || x == 5 {
        Piece::WhiteBishop
    } else if x == 3 {
        Piece::WhiteQueen
    } else {
        Piece::WhiteKing
    }
}

/// Black's back-rank piece on file `x`.
pub open spec fn black_back_rank(x: int) -> Piece {
    if x == 0 || x == 7 {
        Piece::BlackRook
    } else if x == 1 || x == 6 {
        Piece::BlackKnight
    } else if x == 2 || x == 5 {
        Piece::BlackBishop
    } else if x == 3 {
        Piece::BlackQueen
    } else {
        Piece::BlackKing
    }
}

/// The starting position as a row-major sequence of 64 squares.
pub open spec fn starting_board() -> Seq<Piece> {
    Seq::new(64, |i: int| start_square(i % 8, i / 8))
}

/// An 8 by 8 board of squares, stored row-major: square `(x, y)` (file,
/// rank) is element `y * 8 + x`. The orientation is canonical: White's home
/// rank is rank 0 on both peers, whatever the screen shows.
#[derive(Debug, PartialEq, Eq)]
pub struct Board {
    squares: Vec<Piece>,
}

impl View for Board {
    type V = Seq<Piece>;

    closed spec fn view(&self) -> Seq<Piece> {
        self.squares@
    }
}

impl Clone for Board {
    /// An exact copy of the board.
    fn clone(&self) -> (r: Self)
        ensures
            r@ == self@,
    {
        let mut squares: Vec<Piece> = Vec::new();
        let mut i: usize = 0;
        while i < self.squares.len()
            invariant
                i <= self.squares.len(),
                squares@ == self.squares@.take(i as int),
            decreases self.squares.len() - i,
        {
            squares.push(self.squares[i]);
            i = i + 1;
            proof {
                assert(squares@ =~= self.squares@.take(i as int));
            }
        }
        proof {
            assert(squares@ =~= self.squares@);
        }
        Board { squares }
    }
}

impl Board {
    /// A board has exactly 64 squares.
    pub open spec fn wf(self) -> bool {
        self@.len() == 64
    }

    /// The occupant of square `(x, y)` in a 64-square sequence.
    pub open spec fn square_of(b: Seq<Piece>, x: int, y: int) -> Piece {
        b[y * 8 + x]
    }

    /// An all-empty board.
    pub fn new_empty() -> (b: Board)
        ensures
            b.wf(),
            b@ == Seq::new(64, |i: int| Piece::Empty),
    {
        let mut squares: Vec<Piece> = Vec::new();
        let mut i: usize = 0;
        while i < 64
            invariant
                i <= 64,
                squares@ == Seq::new(i as nat, |j: int| Piece::Empty),
            decreases 64 - i,
        {
            squares.push(Piece::Empty);
            i = i + 1;
            proof {
                assert(squares@ =~= Seq::new(i as nat, |j: int| Piece::Empty));
            }
        }
        Board { squares }
    }

    /// The starting position.
    pub fn starting() -> (b: Board)
        ensures
            b.wf(),
            b@ == starting_board(),
    {
        let mut squares: Vec<Piece> = Vec::new();
        let mut i: usize = 0;
        while i < 64
            invariant
                i <= 64,
                squares@ == starting_board().take(i as int),
            decreases 64 - i,
        {
            let x: usize = i % 8;
            let y: usize = i / 8;
            let p = start_piece(x, y);
            squares.push(p);
            i = i + 1;
            proof {
                assert(squares@ =~= starting_board().take(i as int));
            }
        }
        proof {
            assert(squares@ =~= starting_board());
        }
        Board { squares }
    }

    /// A board over the given squares.
    pub fn from_squares(squares: Vec<Piece>) -> (b: Board)
        requires
            squares@.len() == 64,
        ensures
            b.wf(),
            b@ == squares@,
    {
        Board { squares }
    }

    /// The occupant of the square at row-major index `i`.
    pub fn square_index(&self, i: usize) -> (p: Piece)
        requires
            i < self@.len(),
        ensures
            p == self@[i as int],
    {
        self.squares[i]
    }

    /// How many squares the board holds; 64 on any well-formed board.
    pub fn num_squares(&self) -> (n: usize)
        ensures
            n == self@.len(),
    {
        self.squares.len()
    }

    /// The occupant of square `(x, y)`.
    pub fn at(&self, x: usize, y: usize) -> (p: Piece)
        requires
            self.wf(),
            x < 8,
            y < 8,
        ensures
            p == Board::square_of(self@, x as int, y as int),
    {
        self.squares[y * 8 + x]
    }

    /// Replaces the occupant of square `(x, y)`.
    pub fn set_at(&mut self, x: usize, y: usize, p: Piece)
        requires
            old(self).wf(),
            x < 8,
            y < 8,
        ensures
            final(self).wf(),
            final(self)@ == old(self)@.update(y * 8 + x, p),
    {
        let i: usize = y * 8 + x;
        self.squares.set(i, p);
    }
}

/// The occupant of square `(x, y)` in the starting position.
pub fn start_piece(x: usize, y: usize) -> (p: Piece)
    requires
        x < 8,
        y < 8,
    ensures
        p == start_square(x as int, y as int),
{
    if y == 1 {
        Piece::WhitePawn
    } else if y == 6 {
        Piece::BlackPawn
    } else if y == 0 {
        if x == 0 || x == 7 {
            Piece::WhiteRook
        } else if x == 1 || x == 6 {
            Piece::WhiteKnight
        } else if x == 2 || x == 5 {
            Piece::WhiteBishop
        } else if x == 3 {
            Piece::WhiteQueen
        } else {
            Piece::WhiteKing
        }
    } else if y == 7 {
        if x == 0 || x == 7 {
            Piece::BlackRook
        } else if x == 1 || x == 6 {
            Piece::BlackKnight
        } else if x == 2 || x == 5 {
            Piece::BlackBishop
        } else if x == 3 {
            Piece::BlackQueen
        } else {
            Piece::BlackKing
        }
    } else {
        Piece::Empty
    }
}

} // verus!
