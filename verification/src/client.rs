use vstd::prelude::*;

use crate::board::Board;
use crate::messages::{
    features_view, ClientMessage, GameToTcp, ProtocolError, ServerMessage, TcpToGame,
    TcpToGameView,
};
use crate::messages::{clone_features, clone_moves};
use crate::server::{moves_wf, Wait};
use crate::types::{Color, Features, FeaturesView, Joever, Move, Piece};

verus! {

/// The client coordinator's control state.
#[derive(Clone, Copy, Debug, PartialEq, Eq, Structural)]
pub enum ClientPhase {
    /// The handshake was sent; its acknowledgement is pending.
    AwaitingAck,
    /// In the mirroring loop; `turn` names the side to move.
    Mirroring,
    /// A local command was sent; the server's one reply is pending.
    AwaitingReply { cmd: GameToTcp },
    /// Terminal: no further move is accepted.
    Over,
}

/// The mathematical value of a client session.
pub struct ClientSessionView {
    pub phase: ClientPhase,
    /// The colour the local player chose at session start.
    pub my_color: Color,
    /// The side to move, kept in step with the server by replaying its
    /// confirmed states only.
    pub turn: Color,
    pub board: Seq<Piece>,
    pub legal_moves: Seq<Move>,
    pub features: Seq<FeaturesView>,
    /// The move most recently confirmed by the server, if any.
    pub last_move: Option<Move>,
    pub result: Joever,
}

impl ClientSessionView {
    /// The colour the server's player plays.
    pub open spec fn server_color(self) -> Color {
        self.my_color.opposite()
    }

    /// The mirror invariant: a full board, on-board moves, and a terminal
    /// result only in the terminal phase.
    pub open spec fn wf(self) -> bool {
        &&& self.board.len() == 64
        &&& moves_wf(self.legal_moves)
        &&& (self.result != Joever::Ongoing ==> self.phase is Over)
        &&& (match self.phase {
            ClientPhase::AwaitingReply { cmd } => {
                &&& (cmd matches GameToTcp::Move(m) ==> m.wf())
                &&& self.turn == self.my_color
            },
            _ => true,
        })
    }

    /// What the coordinator waits for in this state.
    pub open spec fn spec_wait(self) -> Wait {
        match self.phase {
            ClientPhase::AwaitingAck => Wait::PeerMessage,
            ClientPhase::Mirroring => if self.turn == self.my_color {
                Wait::LocalMove
            } else {
                Wait::PeerMessage
            },
            ClientPhase::AwaitingReply { .. } => Wait::PeerMessage,
            ClientPhase::Over => Wait::Finished,
        }
    }

    /// The state after the handshake acknowledgement: the server's
    /// opening snapshot is adopted and White is to move.
    pub open spec fn after_ack(
        self,
        f: Seq<FeaturesView>,
        b: Seq<Piece>,
        lm: Seq<Move>,
        j: Joever,
    ) -> ClientSessionView {
        ClientSessionView {
            phase: if j == Joever::Ongoing {
                ClientPhase::Mirroring
            } else {
                ClientPhase::Over
            },
            turn: Color::White,
            features: f,
            board: b,
            legal_moves: lm,
            result: j,
            ..self
        }
    }

    /// The state after sending a local command to the server.
    pub open spec fn submitting(self, cmd: GameToTcp) -> ClientSessionView {
        ClientSessionView { phase: (ClientPhase::AwaitingReply { cmd }), ..self }
    }

    /// The state after a confirmed move: the server's snapshot is adopted
    /// wholesale and the turn flips. The client validates nothing.
    pub open spec fn after_state(self, m: Move, b: Seq<Piece>, lm: Seq<Move>, j: Joever) -> ClientSessionView {
        ClientSessionView {
            phase: if j == Joever::Ongoing {
                ClientPhase::Mirroring
            } else {
                ClientPhase::Over
            },
            turn: self.turn.opposite(),
            board: b,
            legal_moves: lm,
            last_move: Some(m),
            result: j,
            ..self
        }
    }

    /// The state after the server rejected the client's move: the mirror
    /// is untouched and the same side stays to move.
    pub open spec fn after_reject(self) -> ClientSessionView {
        ClientSessionView { phase: ClientPhase::Mirroring, ..self }
    }

    /// The state after a session-ending message: the server's final board
    /// is adopted; the turn does not flip.
    pub open spec fn after_end(self, b: Seq<Piece>, lm: Seq<Move>, j: Joever) -> ClientSessionView {
        ClientSessionView {
            phase: ClientPhase::Over,
            board: b,
            legal_moves: lm,
            result: j,
            ..self
        }
    }

    /// The state after a protocol violation: the session is dead.
    pub open spec fn after_violation(self) -> ClientSessionView {
        ClientSessionView { phase: ClientPhase::Over, ..self }
    }

    /// The snapshot event published to the UI bridge.
    pub open spec fn state_event(self, m: Option<Move>) -> TcpToGameView {
        TcpToGameView::State {
            board: self.board,
            moves: self.legal_moves,
            joever: self.result,
            move_made: m,
            turn: self.turn,
        }
    }

    /// The handshake event published to the UI bridge.
    pub open spec fn ack_event(self) -> TcpToGameView {
        TcpToGameView::Handshake {
            board: self.board,
            moves: self.legal_moves,
            features: self.features,
            server_color: self.server_color(),
        }
    }
}

/// The client coordinator's session: a pure mirror of the server's
/// authoritative state, updated only from the server's confirmed
/// messages. The client never judges legality itself.
pub struct ClientSession {
    phase: ClientPhase,
    my_color: Color,
    turn: Color,
    board: Board,
    legal_moves: Vec<Move>,
    features: Vec<Features>,
    last_move: Option<Move>,
    result: Joever,
}

impl View for ClientSession {
    type V = ClientSessionView;

    closed spec fn view(&self) -> ClientSessionView {
        ClientSessionView {
            phase: self.phase,
            my_color: self.my_color,
            turn: self.turn,
            board: self.board@,
            legal_moves: self.legal_moves@,
            features: features_view(self.features@),
            last_move: self.last_move,
            result: self.result,
        }
    }
}

impl ClientSession {
    /// A fresh mirror for a player of colour `chosen_color`, together
    /// with the handshake to send. The board holds empty squares until
    /// the acknowledgement arrives.
    pub fn new(chosen_color: Color) -> (r: (Self, ClientMessage))
        ensures
            r.0@ == (ClientSessionView {
                phase: ClientPhase::AwaitingAck,
                my_color: chosen_color,
                turn: Color::White,
                board: Seq::new(64, |i: int| Piece::Empty),
                legal_moves: Seq::<Move>::empty(),
                features: Seq::<FeaturesView>::empty(),
                last_move: None,
                result: Joever::Ongoing,
            }),
            r.0@.wf(),
            r.1 == (ClientMessage::Handshake { chosen_color }),
    {
        let s = ClientSession {
            phase: ClientPhase::AwaitingAck,
            my_color: chosen_color,
            turn: Color::White,
            board: Board::new_empty(),
            legal_moves: Vec::new(),
            features: Vec::new(),
            last_move: None,
            result: Joever::Ongoing,
        };
        proof {
            assert(s@.legal_moves =~= Seq::<Move>::empty());
            assert(s@.features =~= Seq::<FeaturesView>::empty());
        }
        (s, ClientMessage::Handshake { chosen_color })
    }

    /// What the coordinator must wait for next.
    pub fn next_wait(&self) -> (w: Wait)
        ensures
            w == self@.spec_wait(),
    {
        match self.phase {
            ClientPhase::AwaitingAck => Wait::PeerMessage,
            ClientPhase::Mirroring => if self.turn == self.my_color {
                Wait::LocalMove
            } else {
                Wait::PeerMessage
            },
            ClientPhase::AwaitingReply { .. } => Wait::PeerMessage,
            ClientPhase::Over => Wait::Finished,
        }
    }

    /// The session's current result.
    pub fn result(&self) -> (j: Joever)
        ensures
            j == self@.result,
    {
        self.result
    }

    /// The side to move.
    pub fn turn(&self) -> (c: Color)
        ensures
            c == self@.turn,
    {
        self.turn
    }

    /// The most recently confirmed move, if any.
    pub fn last_move(&self) -> (m: Option<Move>)
        ensures
            m == self@.last_move,
    {
        self.last_move
    }

    /// A copy of the mirrored board.
    pub fn board(&self) -> (b: Board)
        ensures
            b@ == self@.board,
    {
        self.board.clone()
    }

    /// Handles one command from the local player. On the local side's
    /// turn it becomes the message to send, and the session then awaits
    /// the server's one reply; at any other time nothing happens.
    pub fn on_local_command(&mut self, cmd: &GameToTcp) -> (r: Option<ClientMessage>)
        requires
            old(self)@.wf(),
        ensures
            final(self)@.wf(),
            if old(self)@.phase is Mirroring && old(self)@.turn == old(self)@.my_color && (
            match *cmd {
                GameToTcp::Move(m) => m.wf(),
                _ => true,
            }) {
                &&& final(self)@ == old(self)@.submitting(*cmd)
                &&& r == Some(match *cmd {
                    GameToTcp::Move(m) => ClientMessage::SubmitMove(m),
                    GameToTcp::Draw => ClientMessage::OfferDraw,
                    GameToTcp::Resign => ClientMessage::Resign,
                })
            } else {
                final(self)@ == old(self)@ && r is None
            },
    {
        let my_turn = match self.phase {
            ClientPhase::Mirroring => self.turn == self.my_color,
            _ => false,
        };
        if !my_turn {
            return None;
        }
        match cmd {
            GameToTcp::Move(m) => {
                if m.start_x < 8 && m.start_y < 8 && m.end_x < 8 && m.end_y < 8 {
                    self.phase = ClientPhase::AwaitingReply { cmd: *cmd };
                    Some(ClientMessage::SubmitMove(*m))
                } else {
                    None
                }
            },
            GameToTcp::Draw => {
                self.phase = ClientPhase::AwaitingReply { cmd: *cmd };
                Some(ClientMessage::OfferDraw)
            },
            GameToTcp::Resign => {
                self.phase = ClientPhase::AwaitingReply { cmd: *cmd };
                Some(ClientMessage::Resign)
            },
        }
    }

    /// Handles one message from the server. The acknowledgement is
    /// accepted once; after a sent command exactly the matching reply is
    /// accepted; on the server's turn a confirmed state or a session end
    /// is accepted. Everything else is a protocol violation and kills the
    /// session.
    pub fn on_server_message(&mut self, msg: ServerMessage) -> (r: Result<
        TcpToGame,
        ProtocolError,
    >)
        requires
            old(self)@.wf(),
        ensures
            final(self)@.wf(),
            match old(self)@.phase {
                ClientPhase::AwaitingAck => match msg@ {
                    crate::messages::ServerMessageView::HandshakeAck {
                        features,
                        board,
                        legal_moves,
                        result,
                    } => {
                        if msg@.wf_data() {
                            &&& final(self)@ == old(self)@.after_ack(
                                features,
                                board,
                                legal_moves,
                                result,
                            )
                            &&& (r matches Ok(event) && event@ == final(self)@.ack_event())
                        } else {
                            &&& final(self)@ == old(self)@.after_violation()
                            &&& r is Err
                        }
                    },
                    _ => {
                        &&& final(self)@ == old(self)@.after_violation()
                        &&& r is Err
                    },
                },
                ClientPhase::AwaitingReply { cmd } => match cmd {
                    GameToTcp::Move(_) => match msg@ {
                        crate::messages::ServerMessageView::State {
                            board,
                            legal_moves,
                            result,
                            move_applied,
                        } => {
                            if msg@.wf_data() {
                                &&& final(self)@ == old(self)@.after_state(
                                    move_applied,
                                    board,
                                    legal_moves,
                                    result,
                                )
                                &&& (r matches Ok(event) && event@ == final(self)@.state_event(
                                    Some(move_applied),
                                ))
                            } else {
                                &&& final(self)@ == old(self)@.after_violation()
                                &&& r is Err
                            }
                        },
                        crate::messages::ServerMessageView::MoveRejected { reason, .. } => {
                            &&& final(self)@ == old(self)@.after_reject()
                            &&& (r matches Ok(event) && event@ == (TcpToGameView::Error {
                                message: reason,
                            }))
                        },
                        _ => {
                            &&& final(self)@ == old(self)@.after_violation()
                            &&& r is Err
                        },
                    },
                    GameToTcp::Draw => match msg@ {
                        crate::messages::ServerMessageView::DrawAccepted { board, legal_moves } => {
                            if msg@.wf_data() {
                                &&& final(self)@ == old(self)@.after_end(
                                    board,
                                    legal_moves,
                                    Joever::Draw,
                                )
                                &&& (r matches Ok(event) && event@ == final(self)@.state_event(
                                    None,
                                ))
                            } else {
                                &&& final(self)@ == old(self)@.after_violation()
                                &&& r is Err
                            }
                        },
                        _ => {
                            &&& final(self)@ == old(self)@.after_violation()
                            &&& r is Err
                        },
                    },
                    GameToTcp::Resign => match msg@ {
                        crate::messages::ServerMessageView::Resigned { board, result } => {
                            if msg@.wf_data() {
                                &&& final(self)@ == old(self)@.after_end(
                                    board,
                                    old(self)@.legal_moves,
                                    result,
                                )
                                &&& (r matches Ok(event) && event@ == final(self)@.state_event(
                                    None,
                                ))
                            } else {
                                &&& final(self)@ == old(self)@.after_violation()
                                &&& r is Err
                            }
                        },
                        _ => {
                            &&& final(self)@ == old(self)@.after_violation()
                            &&& r is Err
                        },
                    },
                },
                ClientPhase::Mirroring => {
                    if old(self)@.turn != old(self)@.my_color {
                        match msg@ {
                            crate::messages::ServerMessageView::State {
                                board,
                                legal_moves,
                                result,
                                move_applied,
                            } => {
                                if msg@.wf_data() {
                                    &&& final(self)@ == old(self)@.after_state(
                                        move_applied,
                                        board,
                                        legal_moves,
                                        result,
                                    )
                                    &&& (r matches Ok(event) && event@ == final(self)@.state_event(Some(move_applied)))
                                } else {
                                    &&& final(self)@ == old(self)@.after_violation()
                                    &&& r is Err
                                }
                            },
                            crate::messages::ServerMessageView::Resigned { board, result } => {
                                if msg@.wf_data() {
                                    &&& final(self)@ == old(self)@.after_end(
                                        board,
                                        old(self)@.legal_moves,
                                        result,
                                    )
                                    &&& (r matches Ok(event) && event@ == final(self)@.state_event(None))
                                } else {
                                    &&& final(self)@ == old(self)@.after_violation()
                                    &&& r is Err
                                }
                            },
                            crate::messages::ServerMessageView::DrawAccepted {
                                board,
                                legal_moves,
                            } => {
                                if msg@.wf_data() {
                                    &&& final(self)@ == old(self)@.after_end(
                                        board,
                                        legal_moves,
                                        Joever::Draw,
                                    )
                                    &&& (r matches Ok(event) && event@ == final(self)@.state_event(None))
                                } else {
                                    &&& final(self)@ == old(self)@.after_violation()
                                    &&& r is Err
                                }
                            },
                            _ => {
                                &&& final(self)@ == old(self)@.after_violation()
                                &&& r is Err
                            },
                        }
                    } else {
                        &&& final(self)@ == old(self)@.after_violation()
                        &&& r is Err
                    }
                },
                ClientPhase::Over => {
                    &&& final(self)@ == old(self)@.after_violation()
                    &&& r is Err
                },
            },
    {
        match self.phase {
            ClientPhase::AwaitingAck => match msg {
                ServerMessage::HandshakeAck { features, board, legal_moves, result } => {
                    if self.adopt_ok(&board, &legal_moves) {
                        self.features = features;
                        self.board = board;
                        self.legal_moves = legal_moves;
                        self.result = result;
                        self.turn = Color::White;
                        self.phase = if matches!(result, Joever::Ongoing) {
                            ClientPhase::Mirroring
                        } else {
                            ClientPhase::Over
                        };
                        Ok(TcpToGame::Handshake {
                            board: self.board.clone(),
                            moves: clone_moves(&self.legal_moves),
                            features: clone_features(&self.features),
                            server_color: crate::types::oposite_color(&self.my_color),
                        })
                    } else {
                        self.phase = ClientPhase::Over;
                        Err(ProtocolError::UnexpectedMessage)
                    }
                },
                _ => {
                    self.phase = ClientPhase::Over;
                    Err(ProtocolError::UnexpectedMessage)
                },
            },
            ClientPhase::AwaitingReply { cmd: GameToTcp::Move(_) } => match msg {
                ServerMessage::State { board, legal_moves, result, move_applied } => {
                    if self.adopt_ok(&board, &legal_moves) && move_applied.start_x < 8
                        && move_applied.start_y < 8 && move_applied.end_x < 8
                        && move_applied.end_y < 8 {
                        self.apply_state(move_applied, board, legal_moves, result);
                        Ok(TcpToGame::State {
                            board: self.board.clone(),
                            moves: clone_moves(&self.legal_moves),
                            joever: self.result,
                            move_made: Some(move_applied),
                            turn: self.turn,
                        })
                    } else {
                        self.phase = ClientPhase::Over;
                        Err(ProtocolError::UnexpectedMessage)
                    }
                },
                ServerMessage::MoveRejected { reason, .. } => {
                    self.phase = ClientPhase::Mirroring;
                    Ok(TcpToGame::Error { message: reason })
                },
                _ => {
                    self.phase = ClientPhase::Over;
                    Err(ProtocolError::UnexpectedMessage)
                },
            },
            ClientPhase::AwaitingReply { cmd: GameToTcp::Draw } => match msg {
                ServerMessage::DrawAccepted { board, legal_moves } => {
                    if self.adopt_ok(&board, &legal_moves) {
                        self.board = board;
                        self.legal_moves = legal_moves;
                        self.result = Joever::Draw;
                        self.phase = ClientPhase::Over;
                        Ok(TcpToGame::State {
                            board: self.board.clone(),
                            moves: clone_moves(&self.legal_moves),
                            joever: self.result,
                            move_made: None,
                            turn: self.turn,
                        })
                    } else {
                        self.phase = ClientPhase::Over;
                        Err(ProtocolError::UnexpectedMessage)
                    }
                },
                _ => {
                    self.phase = ClientPhase::Over;
                    Err(ProtocolError::UnexpectedMessage)
                },
            },
            ClientPhase::AwaitingReply { cmd: GameToTcp::Resign } => match msg {
                ServerMessage::Resigned { board, result } => {
                    if board.num_squares() == 64 {
                        self.board = board;
                        self.result = result;
                        self.phase = ClientPhase::Over;
                        Ok(TcpToGame::State {
                            board: self.board.clone(),
                            moves: clone_moves(&self.legal_moves),
                            joever: self.result,
                            move_made: None,
                            turn: self.turn,
                        })
                    } else {
                        self.phase = ClientPhase::Over;
                        Err(ProtocolError::UnexpectedMessage)
                    }
                },
                _ => {
                    self.phase = ClientPhase::Over;
                    Err(ProtocolError::UnexpectedMessage)
                },
            },
            ClientPhase::Mirroring => {
                if self.turn != self.my_color {
                    match msg {
                        ServerMessage::State { board, legal_moves, result, move_applied } => {
                            if self.adopt_ok(&board, &legal_moves) && move_applied.start_x < 8
                                && move_applied.start_y < 8 && move_applied.end_x < 8
                                && move_applied.end_y < 8 {
                                self.apply_state(move_applied, board, legal_moves, result);
                                Ok(TcpToGame::State {
                                    board: self.board.clone(),
                                    moves: clone_moves(&self.legal_moves),
                                    joever: self.result,
                                    move_made: Some(move_applied),
                                    turn: self.turn,
                                })
                            } else {
                                self.phase = ClientPhase::Over;
                                Err(ProtocolError::UnexpectedMessage)
                            }
                        },
                        ServerMessage::Resigned { board, result } => {
                            if board.num_squares() == 64 {
                                self.board = board;
                                self.result = result;
                                self.phase = ClientPhase::Over;
                                Ok(TcpToGame::State {
                                    board: self.board.clone(),
                                    moves: clone_moves(&self.legal_moves),
                                    joever: self.result,
                                    move_made: None,
                                    turn: self.turn,
                                })
                            } else {
                                self.phase = ClientPhase::Over;
                                Err(ProtocolError::UnexpectedMessage)
                            }
                        },
                        ServerMessage::DrawAccepted { board, legal_moves } => {
                            if self.adopt_ok(&board, &legal_moves) {
                                self.board = board;
                                self.legal_moves = legal_moves;
                                self.result = Joever::Draw;
                                self.phase = ClientPhase::Over;
                                Ok(TcpToGame::State {
                                    board: self.board.clone(),
                                    moves: clone_moves(&self.legal_moves),
                                    joever: self.result,
                                    move_made: None,
                                    turn: self.turn,
                                })
                            } else {
                                self.phase = ClientPhase::Over;
                                Err(ProtocolError::UnexpectedMessage)
                            }
                        },
                        _ => {
                            self.phase = ClientPhase::Over;
                            Err(ProtocolError::UnexpectedMessage)
                        },
                    }
                } else {
                    self.phase = ClientPhase::Over;
                    Err(ProtocolError::UnexpectedMessage)
                }
            },
            ClientPhase::Over => {
                self.phase = ClientPhase::Over;
                Err(ProtocolError::UnexpectedMessage)
            },
        }
    }

    /// Whether an incoming snapshot has the right shape to adopt.
    fn adopt_ok(&self, board: &Board, legal_moves: &Vec<Move>) -> (r: bool)
        ensures
            r == (board@.len() == 64 && moves_wf(legal_moves@)),
    {
        if board.num_squares() != 64 {
            return false;
        }
        let mut i: usize = 0;
        while i < legal_moves.len()
            invariant
                i <= legal_moves.len(),
                forall|j: int| 0 <= j < i ==> (#[trigger] legal_moves@[j]).wf(),
            decreases legal_moves.len() - i,
        {
            let m = legal_moves[i];
            if !(m.start_x < 8 && m.start_y < 8 && m.end_x < 8 && m.end_y < 8) {
                return false;
            }
            i = i + 1;
        }
        true
    }

    /// Adopts a confirmed state and flips the turn.
    fn apply_state(&mut self, m: Move, board: Board, legal_moves: Vec<Move>, result: Joever)
        ensures
            final(self)@ == old(self)@.after_state(m, board@, legal_moves@, result),
    {
        self.board = board;
        self.legal_moves = legal_moves;
        self.last_move = Some(m);
        self.result = result;
        self.turn = crate::types::oposite_color(&self.turn);
        self.phase = if matches!(result, Joever::Ongoing) {
            ClientPhase::Mirroring
        } else {
            ClientPhase::Over
        };
    }
}

} // verus!
