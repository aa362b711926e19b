use vstd::prelude::*;

use crate::board::Board;
use crate::types::{Color, Features, FeaturesView, Joever, Move, Piece};

verus! {

/// Every move in the list lies on the board.
pub open spec fn moves_wf(s: Seq<Move>) -> bool {
    forall|i: int| 0 <= i < s.len() ==> (#[trigger] s[i]).wf()
}

/// The mathematical value of a list of features.
pub open spec fn features_view(v: Seq<Features>) -> Seq<FeaturesView> {
    v.map_values(|f: Features| f@)
}

/// A message the client sends to the server.
#[derive(Clone, Copy, Debug, PartialEq, Eq, Structural)]
pub enum ClientMessage {
    /// Opens the session: the client announces the colour it will play.
    Handshake { chosen_color: Color },
    /// Asks the server to apply one move for the client's side.
    SubmitMove(Move),
    /// The client gives up; the server's side wins.
    Resign,
    /// The client offers a draw; this library accepts it at once.
    OfferDraw,
}

impl ClientMessage {
    /// Any move carried by the message lies on the board.
    pub open spec fn wf(self) -> bool {
        match self {
            ClientMessage::SubmitMove(m) => m.wf(),
            _ => true,
        }
    }
}

/// A message the server sends to the client.
#[derive(Debug, PartialEq, Eq)]
pub enum ServerMessage {
    /// Answers the handshake with the engine's opening snapshot.
    HandshakeAck { features: Vec<Features>, board: Board, legal_moves: Vec<Move>, result: Joever },
    /// Reports one applied move and the state after it.
    State { board: Board, legal_moves: Vec<Move>, result: Joever, move_applied: Move },
    /// Rejects the client's last submitted move; nothing changed.
    MoveRejected { board: Board, legal_moves: Vec<Move>, result: Joever, reason: String },
    /// Confirms a draw offer; the session is over.
    DrawAccepted { board: Board, legal_moves: Vec<Move> },
    /// Reports a resignation; `result` names the winner.
    Resigned { board: Board, result: Joever },
}

/// The mathematical value of a `ServerMessage`.
pub enum ServerMessageView {
    HandshakeAck {
        features: Seq<FeaturesView>,
        board: Seq<Piece>,
        legal_moves: Seq<Move>,
        result: Joever,
    },
    State { board: Seq<Piece>, legal_moves: Seq<Move>, result: Joever, move_applied: Move },
    MoveRejected {
        board: Seq<Piece>,
        legal_moves: Seq<Move>,
        result: Joever,
        reason: Seq<char>,
    },
    DrawAccepted { board: Seq<Piece>, legal_moves: Seq<Move> },
    Resigned { board: Seq<Piece>, result: Joever },
}

impl View for ServerMessage {
    type V = ServerMessageView;

    open spec fn view(&self) -> ServerMessageView {
        match self {
            ServerMessage::HandshakeAck { features, board, legal_moves, result } => {
                ServerMessageView::HandshakeAck {
                    features: features_view(features@),
                    board: board@,
                    legal_moves: legal_moves@,
                    result: *result,
                }
            },
            ServerMessage::State { board, legal_moves, result, move_applied } => {
                ServerMessageView::State {
                    board: board@,
                    legal_moves: legal_moves@,
                    result: *result,
                    move_applied: *move_applied,
                }
            },
            ServerMessage::MoveRejected { board, legal_moves, result, reason } => {
                ServerMessageView::MoveRejected {
                    board: board@,
                    legal_moves: legal_moves@,
                    result: *result,
                    reason: reason@,
                }
            },
            ServerMessage::DrawAccepted { board, legal_moves } => {
                ServerMessageView::DrawAccepted { board: board@, legal_moves: legal_moves@ }
            },
            ServerMessage::Resigned { board, result } => {
                ServerMessageView::Resigned { board: board@, result: *result }
            },
        }
    }
}

impl ServerMessageView {
    /// The board is full-sized and every move lies on the board.
    pub open spec fn wf_data(self) -> bool {
        match self {
            ServerMessageView::HandshakeAck { board, legal_moves, .. } => {
                board.len() == 64 && moves_wf(legal_moves)
            },
            ServerMessageView::State { board, legal_moves, move_applied, .. } => {
                board.len() == 64 && move_applied.wf() && moves_wf(legal_moves)
            },
            ServerMessageView::MoveRejected { board, legal_moves, .. } => {
                board.len() == 64 && moves_wf(legal_moves)
            },
            ServerMessageView::DrawAccepted { board, legal_moves } => {
                board.len() == 64 && moves_wf(legal_moves)
            },
            ServerMessageView::Resigned { board, .. } => board.len() == 64,
        }
    }
}

/// One event delivered from the coordinator thread to the UI thread over
/// the in-process bridge. The UI renders these and nothing else.
#[derive(Debug, PartialEq, Eq)]
pub enum TcpToGame {
    /// The session is open: the opening snapshot and the server's colour.
    Handshake { board: Board, moves: Vec<Move>, features: Vec<Features>, server_color: Color },
    /// A new state snapshot. `move_made` is `None` when the snapshot ends
    /// the session by resignation or an accepted draw rather than a move.
    State { board: Board, moves: Vec<Move>, joever: Joever, move_made: Option<Move>, turn: Color },
    /// A human-readable report, most often a rejected move.
    Error { message: String },
}

/// The mathematical value of a `TcpToGame` event.
pub enum TcpToGameView {
    Handshake {
        board: Seq<Piece>,
        moves: Seq<Move>,
        features: Seq<FeaturesView>,
        server_color: Color,
    },
    State {
        board: Seq<Piece>,
        moves: Seq<Move>,
        joever: Joever,
        move_made: Option<Move>,
        turn: Color,
    },
    Error { message: Seq<char> },
}

impl View for TcpToGame {
    type V = TcpToGameView;

    open spec fn view(&self) -> TcpToGameView {
        match self {
            TcpToGame::Handshake { board, moves, features, server_color } => {
                TcpToGameView::Handshake {
                    board: board@,
                    moves: moves@,
                    features: features_view(features@),
                    server_color: *server_color,
                }
            },
            TcpToGame::State { board, moves, joever, move_made, turn } => {
                TcpToGameView::State {
                    board: board@,
                    moves: moves@,
                    joever: *joever,
                    move_made: *move_made,
                    turn: *turn,
                }
            },
            TcpToGame::Error { message } => TcpToGameView::Error { message: message@ },
        }
    }
}

/// One command from the UI thread to the coordinator thread: a move intent,
/// a draw offer, or a resignation of the local side.
#[derive(Clone, Copy, Debug, PartialEq, Eq, Structural)]
pub enum GameToTcp {
    Move(Move),
    Draw,
    Resign,
}

/// A fatal condition: the peer sent a message that the session's state does
/// not expect. The session ends; only the stream closing follows it.
#[derive(Clone, Copy, Debug, PartialEq, Eq, Structural)]
pub enum ProtocolError {
    UnexpectedMessage,
}

/// An element-wise copy of a move list.
pub fn clone_moves(v: &Vec<Move>) -> (r: Vec<Move>)
    ensures
        r@ == v@,
{
    let mut r: Vec<Move> = Vec::new();
    let mut i: usize = 0;
    while i < v.len()
        invariant
            i <= v.len(),
            r@ == v@.take(i as int),
        decreases v.len() - i,
    {
        r.push(v[i]);
        i = i + 1;
        proof {
            assert(r@ =~= v@.take(i as int));
        }
    }
    proof {
        assert(r@ =~= v@);
    }
    r
}

/// An element-wise copy of a feature list.
pub fn clone_features(v: &Vec<Features>) -> (r: Vec<Features>)
    ensures
        features_view(r@) == features_view(v@),
{
    let mut r: Vec<Features> = Vec::new();
    let mut i: usize = 0;
    while i < v.len()
        invariant
            i <= v.len(),
            r@.len() == i,
            forall|j: int| 0 <= j < i ==> (#[trigger] r@[j])@ == v@[j]@,
        decreases v.len() - i,
    {
        let c = v[i].clone();
        r.push(c);
        i = i + 1;
    }
    proof {
        assert(features_view(r@) =~= features_view(v@));
    }
    r
}

} // verus!
