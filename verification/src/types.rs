use vstd::prelude::*;

verus! {

/// One of the two players; also names the side whose turn it is.
#[derive(Clone, Copy, Debug, PartialEq, Eq, Structural)]
pub enum Color {
    White,
    Black,
}

impl Color {
    /// The colour of the other player.
    pub open spec fn opposite(self) -> Color {
        match self {
            Color::White => Color::Black,
            Color::Black => Color::White,
        }
    }
}

/// The colour the opponent of `color` plays.
pub fn oposite_color(color: &Color) -> (r: Color)
    ensures
        r == color.opposite(),
{
    match color {
        Color::White => Color::Black,
        Color::Black => Color::White,
    }
}

/// The occupant of one square: a piece of one of the two colours, or the
/// distinguished empty value.
#[derive(Clone, Copy, Debug, PartialEq, Eq, Structural)]
pub enum Piece {
    WhitePawn,
    WhiteKnight,
    WhiteBishop,
    WhiteRook,
    WhiteQueen,
    WhiteKing,
    BlackPawn,
    BlackKnight,
    BlackBishop,
    BlackRook,
    BlackQueen,
    BlackKing,
    Empty,
}

impl Piece {
    /// The colour of the piece, if the square is not empty.
    pub open spec fn spec_color(self) -> Option<Color> {
        match self {
            Piece::WhitePawn => Some(Color::White),
            Piece::WhiteKnight => Some(Color::White),
            Piece::WhiteBishop => Some(Color::White),
            Piece::WhiteRook => Some(Color::White),
            Piece::WhiteQueen => Some(Color::White),
            Piece::WhiteKing => Some(Color::White),
            Piece::BlackPawn => Some(Color::Black),
            Piece::BlackKnight => Some(Color::Black),
            Piece::BlackBishop => Some(Color::Black),
            Piece::BlackRook => Some(Color::Black),
            Piece::BlackQueen => Some(Color::Black),
            Piece::BlackKing => Some(Color::Black),
            Piece::Empty => None,
        }
    }
}

/// The colour of `piece`, or `None` for an empty square.
pub fn piece_color(piece: &Piece) -> (r: Option<Color>)
    ensures
        r == piece.spec_color(),
{
    match piece {
        Piece::WhitePawn => Some(Color::White),
        Piece::WhiteKnight => Some(Color::White),
        Piece::WhiteBishop => Some(Color::White),
        Piece::WhiteRook => Some(Color::White),
        Piece::WhiteQueen => Some(Color::White),
        Piece::WhiteKing => Some(Color::White),
        Piece::BlackPawn => Some(Color::Black),
        Piece::BlackKnight => Some(Color::Black),
        Piece::BlackBishop => Some(Color::Black),
        Piece::BlackRook => Some(Color::Black),
        Piece::BlackQueen => Some(Color::Black),
        Piece::BlackKing => Some(Color::Black),
        Piece::Empty => None,
    }
}

/// The final standing of a game: still running, won, drawn, or undecidable
/// by the engine.
#[derive(Clone, Copy, Debug, PartialEq, Eq, Structural)]
pub enum Joever {
    White,
    Black,
    Draw,
    Ongoing,
    Indeterminate,
}

impl Joever {
    /// The result in which `winner` has won.
    pub open spec fn win_for(winner: Color) -> Joever {
        match winner {
            Color::White => Joever::White,
            Color::Black => Joever::Black,
        }
    }
}

/// The result in which `winner` has won the game.
pub fn win_for(winner: &Color) -> (r: Joever)
    ensures
        r == Joever::win_for(*winner),
{
    match winner {
        Color::White => Joever::White,
        Color::Black => Joever::Black,
    }
}

/// A capability the engine advertises at handshake time. Purely
/// informational: the protocol never branches on one, except that a client
/// may expect an empty legal-move list when `PossibleMoveGeneration` is
/// absent.
#[derive(Debug, PartialEq, Eq)]
pub enum Features {
    Castling,
    EnPassant,
    Promotion,
    PossibleMoveGeneration,
    Stalemate,
    Other(String),
}

/// The mathematical value of a `Features`: the open-ended variant carries
/// the name as a sequence of characters.
pub enum FeaturesView {
    Castling,
    EnPassant,
    Promotion,
    PossibleMoveGeneration,
    Stalemate,
    Other(Seq<char>),
}

impl Clone for Features {
    /// An exact copy of the feature.
    fn clone(&self) -> (r: Self)
        ensures
            r@ == self@,
    {
        match self {
            Features::Castling => Features::Castling,
            Features::EnPassant => Features::EnPassant,
            Features::Promotion => Features::Promotion,
            Features::PossibleMoveGeneration => Features::PossibleMoveGeneration,
            Features::Stalemate => Features::Stalemate,
            Features::Other(s) => Features::Other(s.as_str().to_owned()),
        }
    }
}

impl View for Features {
    type V = FeaturesView;

    open spec fn view(&self) -> FeaturesView {
        match self {
            Features::Castling => FeaturesView::Castling,
            Features::EnPassant => FeaturesView::EnPassant,
            Features::Promotion => FeaturesView::Promotion,
            Features::PossibleMoveGeneration => FeaturesView::PossibleMoveGeneration,
            Features::Stalemate => FeaturesView::Stalemate,
            Features::Other(s) => FeaturesView::Other(s@),
        }
    }
}

/// One move: start square, end square, and the piece a pawn promotes to
/// (`Piece::Empty` when the move is no promotion). Files and ranks are
/// zero-based; White's home rank is rank 0.
#[derive(Clone, Copy, Debug, PartialEq, Eq, Structural)]
pub struct Move {
    pub start_x: usize,
    pub start_y: usize,
    pub end_x: usize,
    pub end_y: usize,
    pub promotion: Piece,
}

impl Move {
    /// All four coordinates lie on the board.
    pub open spec fn wf(self) -> bool {
        self.start_x < 8 && self.start_y < 8 && self.end_x < 8 && self.end_y < 8
    }
}

/// The colour the local player plays, given the server's colour and which
/// role this peer has.
pub fn your_color(server_color: &Color, is_server: bool) -> (r: Color)
    ensures
        r == (if is_server {
            *server_color
        } else {
            server_color.opposite()
        }),
{
    if is_server {
        *server_color
    } else {
        oposite_color(server_color)
    }
}

/// Whether it is the local player's turn, given whose turn it is, the
/// server's colour and which role this peer has.
pub fn your_turn(turn: &Color, server_color: &Color, is_server: bool) -> (r: bool)
    ensures
        r == ((*turn != *server_color) != is_server),
{
    (*turn != *server_color) != is_server
}

/// The rank as drawn on screen for board rank `y`, out-of-range values
/// clamped to the board: each peer sees its own pieces at the bottom.
pub open spec fn spec_y_colored(is_server: bool, server_color: Color, y: usize) -> usize {
    let yc = if y > 7 {
        7usize
    } else {
        y
    };
    match server_color {
        Color::White => if !is_server {
            yc
        } else {
            (7 - yc) as usize
        },
        Color::Black => if !is_server {
            (7 - yc) as usize
        } else {
            yc
        },
    }
}

/// The screen row for board rank `y`: a presentation transform only, the
/// wire and the engine always use the canonical orientation.
pub fn y_colored(is_server: bool, server_color: &Color, y: usize) -> (r: usize)
    ensures
        r == spec_y_colored(is_server, *server_color, y),
{
    let yc: usize = if y > 7 {
        7
    } else {
        y
    };
    match server_color {
        Color::White => if !is_server {
            yc
        } else {
            7 - yc
        },
        Color::Black => if !is_server {
            7 - yc
        } else {
            yc
        },
    }
}

/// The file as drawn on screen for board file `x`, out-of-range values
/// clamped to the board.
pub open spec fn spec_x_colored(is_server: bool, server_color: Color, x: usize) -> usize {
    let xc = if x > 7 {
        7usize
    } else {
        x
    };
    match server_color {
        Color::White => if is_server {
            xc
        } else {
            (7 - xc) as usize
        },
        Color::Black => if is_server {
            (7 - xc) as usize
        } else {
            xc
        },
    }
}

/// The screen column for board file `x`: a presentation transform only.
pub fn x_colored(is_server: bool, server_color: &Color, x: usize) -> (r: usize)
    ensures
        r == spec_x_colored(is_server, *server_color, x),
{
    let xc: usize = if x > 7 {
        7
    } else {
        x
    };
    match server_color {
        Color::White => if is_server {
            xc
        } else {
            7 - xc
        },
        Color::Black => if is_server {
            7 - xc
        } else {
            xc
        },
    }
}

/// The letter naming board file `x`.
pub fn cord_to_file(x: usize) -> (r: &'static str)
    requires
        x < 8,
    ensures
        r@ == spec_file_name(x),
{
    proof {
        reveal_strlit("a");
        reveal_strlit("b");
        reveal_strlit("c");
        reveal_strlit("d");
        reveal_strlit("e");
        reveal_strlit("f");
        reveal_strlit("g");
        reveal_strlit("h");
    }
    match x {
        0 => "a",
        1 => "b",
        2 => "c",
        3 => "d",
        4 => "e",
        5 => "f",
        6 => "g",
        _ => "h",
    }
}

/// The one-letter name of board file `x`.
pub open spec fn spec_file_name(x: usize) -> Seq<char> {
    if x == 0 {
        seq!['a']
    } else if x == 1 {
        seq!['b']
    } else if x == 2 {
        seq!['c']
    } else if x == 3 {
        seq!['d']
    } else if x == 4 {
        seq!['e']
    } else if x == 5 {
        seq!['f']
    } else if x == 6 {
        seq!['g']
    } else {
        seq!['h']
    }
}

} // verus!
