use vstd::prelude::*;

use crate::board::Board;
use crate::engine::UniversalGame;
use crate::messages::{
    clone_features, clone_moves, features_view, ClientMessage, GameToTcp, ServerMessage,
    ServerMessageView, TcpToGame, TcpToGameView,
};
pub use crate::messages::moves_wf;
use crate::types::{win_for, Color, Features, FeaturesView, Joever, Move, Piece};

verus! {

/// The reason sent back for a submitted move whose coordinates leave the
/// board; such a move is rejected without consulting the engine.
pub open spec fn off_board_reason() -> Seq<char> {
    "move is outside the board"@
}

/// What a coordinator must wait for next. Exactly one thing is awaited at
/// a time: the protocol is single-threaded from the coordinator's view.
#[derive(Clone, Copy, Debug, PartialEq, Eq, Structural)]
pub enum Wait {
    /// A message from the peer (for the server before the handshake, the
    /// one `Handshake`; later a move, a resignation or a draw offer).
    PeerMessage,
    /// A command from the local player over the UI bridge.
    LocalMove,
    /// The engine's verdict on a submitted move.
    EngineOutcome,
    /// Nothing: the session is over.
    Finished,
}

/// The server coordinator's control state.
#[derive(Clone, Copy, Debug, PartialEq, Eq, Structural)]
pub enum ServerPhase {
    /// Waiting for the one `Handshake` of the session.
    AwaitingHandshake,
    /// In the turn loop; `turn` names the side to move.
    AwaitingMoves,
    /// A local move intent is at the engine; its verdict is pending.
    ApplyingLocal { m: Move },
    /// A remote submitted move is at the engine; its verdict is pending.
    ApplyingRemote { m: Move },
    /// Terminal: no further move is accepted.
    Over,
}

/// The mathematical value of a server session.
pub struct ServerSessionView {
    pub phase: ServerPhase,
    /// The colour the peer announced for itself at handshake time.
    pub client_color: Color,
    /// The side to move. Agreed on by both peers after every applied move.
    pub turn: Color,
    pub board: Seq<Piece>,
    pub legal_moves: Seq<Move>,
    pub features: Seq<FeaturesView>,
    /// The move most recently applied by the engine, if any.
    pub last_move: Option<Move>,
    pub result: Joever,
}

impl ServerSessionView {
    /// The colour the server's local player plays.
    pub open spec fn server_color(self) -> Color {
        self.client_color.opposite()
    }

    /// The single-writer session invariant: a full board, on-board moves,
    /// and a terminal result only in the terminal phase.
    pub open spec fn wf(self) -> bool {
        &&& self.board.len() == 64
        &&& moves_wf(self.legal_moves)
        &&& (self.result != Joever::Ongoing ==> self.phase is Over)
        &&& (self.phase is AwaitingHandshake ==> self.turn == Color::White)
        &&& (match self.phase {
            ServerPhase::ApplyingLocal { m } => m.wf() && self.turn == self.server_color(),
            ServerPhase::ApplyingRemote { m } => m.wf() && self.turn == self.client_color,
            _ => true,
        })
    }

    /// What the coordinator waits for in this state.
    pub open spec fn spec_wait(self) -> Wait {
        match self.phase {
            ServerPhase::AwaitingHandshake => Wait::PeerMessage,
            ServerPhase::AwaitingMoves => if self.turn == self.client_color {
                Wait::PeerMessage
            } else {
                Wait::LocalMove
            },
            ServerPhase::ApplyingLocal { .. } => Wait::EngineOutcome,
            ServerPhase::ApplyingRemote { .. } => Wait::EngineOutcome,
            ServerPhase::Over => Wait::Finished,
        }
    }

    /// The state after the handshake: the peer's colour is recorded and
    /// the turn loop starts with White to move.
    pub open spec fn after_handshake(self, chosen: Color) -> ServerSessionView {
        ServerSessionView {
            phase: ServerPhase::AwaitingMoves,
            client_color: chosen,
            turn: Color::White,
            ..self
        }
    }

    /// The state after handing a local move to the engine.
    pub open spec fn submitting_local(self, m: Move) -> ServerSessionView {
        ServerSessionView { phase: (ServerPhase::ApplyingLocal { m }), ..self }
    }

    /// The state after handing a remote move to the engine.
    pub open spec fn submitting_remote(self, m: Move) -> ServerSessionView {
        ServerSessionView { phase: (ServerPhase::ApplyingRemote { m }), ..self }
    }

    /// The state after the engine applied move `m`: the mirror is
    /// refreshed, the move is recorded, the turn flips, and a terminal
    /// result ends the loop.
    pub open spec fn after_accept(self, m: Move, b: Seq<Piece>, lm: Seq<Move>, j: Joever) -> ServerSessionView {
        ServerSessionView {
            phase: if j == Joever::Ongoing {
                ServerPhase::AwaitingMoves
            } else {
                ServerPhase::Over
            },
            turn: self.turn.opposite(),
            board: b,
            legal_moves: lm,
            last_move: Some(m),
            result: j,
            ..self
        }
    }

    /// The state after the engine rejected the pending move: nothing but
    /// the phase changes; the same side stays to move.
    pub open spec fn after_reject(self) -> ServerSessionView {
        ServerSessionView { phase: ServerPhase::AwaitingMoves, ..self }
    }

    /// The state after a protocol violation: the session is dead.
    pub open spec fn after_violation(self) -> ServerSessionView {
        ServerSessionView { phase: ServerPhase::Over, ..self }
    }

    /// The state after an accepted draw offer.
    pub open spec fn after_draw(self) -> ServerSessionView {
        ServerSessionView { phase: ServerPhase::Over, result: Joever::Draw, ..self }
    }

    /// The state after `resigner` resigned: the opponent wins at once.
    pub open spec fn after_resign(self, resigner: Color) -> ServerSessionView {
        ServerSessionView {
            phase: ServerPhase::Over,
            result: Joever::win_for(resigner.opposite()),
            ..self
        }
    }

    /// The handshake answer: the engine's opening snapshot.
    pub open spec fn ack_msg(self) -> ServerMessageView {
        ServerMessageView::HandshakeAck {
            features: self.features,
            board: self.board,
            legal_moves: self.legal_moves,
            result: self.result,
        }
    }

    /// The state report sent to the peer for an applied move.
    pub open spec fn state_msg(self, m: Move) -> ServerMessageView {
        ServerMessageView::State {
            board: self.board,
            legal_moves: self.legal_moves,
            result: self.result,
            move_applied: m,
        }
    }

    /// The rejection report sent to the peer for a refused move.
    pub open spec fn reject_msg(self, reason: Seq<char>) -> ServerMessageView {
        ServerMessageView::MoveRejected {
            board: self.board,
            legal_moves: self.legal_moves,
            result: self.result,
            reason,
        }
    }

    /// The snapshot event published to the UI bridge.
    pub open spec fn state_event(self, m: Option<Move>) -> TcpToGameView {
        TcpToGameView::State {
            board: self.board,
            moves: self.legal_moves,
            joever: self.result,
            move_made: m,
            turn: self.turn,
        }
    }

    /// The handshake event published to the UI bridge.
    pub open spec fn ack_event(self) -> TcpToGameView {
        TcpToGameView::Handshake {
            board: self.board,
            moves: self.legal_moves,
            features: self.features,
            server_color: self.server_color(),
        }
    }
}

/// The server coordinator's session: the authoritative record of one game
/// as seen by the peer that owns the engine. Only the coordinator thread
/// mutates it; the UI sees snapshots through the bridge events.
pub struct ServerSession {
    phase: ServerPhase,
    client_color: Color,
    turn: Color,
    board: Board,
    legal_moves: Vec<Move>,
    features: Vec<Features>,
    last_move: Option<Move>,
    result: Joever,
}

impl View for ServerSession {
    type V = ServerSessionView;

    closed spec fn view(&self) -> ServerSessionView {
        ServerSessionView {
            phase: self.phase,
            client_color: self.client_color,
            turn: self.turn,
            board: self.board@,
            legal_moves: self.legal_moves@,
            features: features_view(self.features@),
            last_move: self.last_move,
            result: self.result,
        }
    }
}

/// The answer to one peer message.
pub enum RemoteReply {
    /// The handshake was accepted: send the message, publish the event.
    Ack(ServerMessage, TcpToGame),
    /// A move was submitted; the caller must now ask the engine and hand
    /// the verdict to `engine_accepted` or `engine_rejected`.
    Submit,
    /// The move never reached the engine (it leaves the board): answer
    /// with this rejection; nothing changed.
    Rejected(ServerMessage),
    /// A draw offer was accepted: send the message, publish the event,
    /// the session is over.
    DrawEnded(ServerMessage, TcpToGame),
    /// The peer resigned: send the message, publish the event, the
    /// session is over.
    ResignEnded(ServerMessage, TcpToGame),
    /// The message does not fit the session's state: fatal, the session
    /// is dead; the caller reports an error and closes the stream.
    Violation,
    /// Nothing was done (the session is over, or it is not the peer's
    /// turn); the state is unchanged.
    Refused,
}

/// The answer to one local UI command.
pub enum LocalReply {
    /// A move intent goes to the engine; the caller must hand the verdict
    /// to `engine_accepted` or `engine_rejected`.
    Submit,
    /// The intent never reached the engine (it leaves the board): publish
    /// this event locally; the peer is not told, nothing changed.
    Rejected(TcpToGame),
    /// The local player offered a draw, accepted at once: send and
    /// publish; the session is over.
    DrawEnded(ServerMessage, TcpToGame),
    /// The local player resigned: send and publish; the session is over.
    ResignEnded(ServerMessage, TcpToGame),
    /// Nothing was done (not the local side's turn, or the session is not
    /// in its turn loop); the state is unchanged.
    Refused,
}

/// The answer to an engine rejection: local intents fail quietly to the
/// UI only, remote submissions are answered over the wire.
pub enum RejectReply {
    Ui(TcpToGame),
    Peer(ServerMessage),
}

impl ServerSession {
    /// A fresh session around the engine's opening snapshot, waiting for
    /// the one handshake of its lifetime.
    pub fn new(board: Board, legal_moves: Vec<Move>, features: Vec<Features>) -> (s: Self)
        requires
            board.wf(),
            moves_wf(legal_moves@),
        ensures
            s@ == (ServerSessionView {
                phase: ServerPhase::AwaitingHandshake,
                client_color: Color::Black,
                turn: Color::White,
                board: board@,
                legal_moves: legal_moves@,
                features: features_view(features@),
                last_move: None,
                result: Joever::Ongoing,
            }),
            s@.wf(),
    {
        ServerSession {
            phase: ServerPhase::AwaitingHandshake,
            client_color: Color::Black,
            turn: Color::White,
            board,
            legal_moves,
            features,
            last_move: None,
            result: Joever::Ongoing,
        }
    }

    /// What the coordinator must wait for next.
    pub fn next_wait(&self) -> (w: Wait)
        ensures
            w == self@.spec_wait(),
    {
        match self.phase {
            ServerPhase::AwaitingHandshake => Wait::PeerMessage,
            ServerPhase::AwaitingMoves => if self.turn == self.client_color {
                Wait::PeerMessage
            } else {
                Wait::LocalMove
            },
            ServerPhase::ApplyingLocal { .. } => Wait::EngineOutcome,
            ServerPhase::ApplyingRemote { .. } => Wait::EngineOutcome,
            ServerPhase::Over => Wait::Finished,
        }
    }

    /// The session's current result.
    pub fn result(&self) -> (j: Joever)
        ensures
            j == self@.result,
    {
        self.result
    }

    /// The side to move.
    pub fn turn(&self) -> (c: Color)
        ensures
            c == self@.turn,
    {
        self.turn
    }

    /// The most recently applied move, if any move has been applied.
    pub fn last_move(&self) -> (m: Option<Move>)
        ensures
            m == self@.last_move,
    {
        self.last_move
    }

    /// A copy of the session's board mirror.
    pub fn board(&self) -> (b: Board)
        ensures
            b@ == self@.board,
    {
        self.board.clone()
    }

    /// Handles one message from the peer. Exactly one handshake is
    /// accepted, moves are accepted only on the peer's turn while the game
    /// runs, a resignation or draw offer ends the session, and nothing at
    /// all is accepted once the session is over.
    pub fn on_remote_message(&mut self, msg: &ClientMessage) -> (r: RemoteReply)
        requires
            old(self)@.wf(),
            !(old(self)@.phase is ApplyingLocal),
            !(old(self)@.phase is ApplyingRemote),
        ensures
            final(self)@.wf(),
            match old(self)@.phase {
                ServerPhase::AwaitingHandshake => match *msg {
                    ClientMessage::Handshake { chosen_color } => {
                        &&& final(self)@ == old(self)@.after_handshake(chosen_color)
                        &&& (r matches RemoteReply::Ack(reply, event)
                            && reply@ == old(self)@.ack_msg()
                            && event@ == final(self)@.ack_event())
                    },
                    _ => {
                        &&& final(self)@ == old(self)@.after_violation()
                        &&& r is Violation
                    },
                },
                ServerPhase::AwaitingMoves => match *msg {
                    ClientMessage::Handshake { .. } => {
                        &&& final(self)@ == old(self)@.after_violation()
                        &&& r is Violation
                    },
                    ClientMessage::SubmitMove(m) => {
                        if old(self)@.turn == old(self)@.client_color {
                            if m.wf() {
                                &&& final(self)@ == old(self)@.submitting_remote(m)
                                &&& r is Submit
                            } else {
                                &&& final(self)@ == old(self)@
                                &&& (r matches RemoteReply::Rejected(reply)
                                    && reply@ == old(self)@.reject_msg(off_board_reason()))
                            }
                        } else {
                            final(self)@ == old(self)@ && r is Refused
                        }
                    },
                    ClientMessage::Resign => {
                        &&& final(self)@ == old(self)@.after_resign(old(self)@.client_color)
                        &&& (r matches RemoteReply::ResignEnded(reply, event)
                            && reply@ == (ServerMessageView::Resigned {
                                board: final(self)@.board,
                                result: final(self)@.result,
                            })
                            && event@ == final(self)@.state_event(None))
                    },
                    ClientMessage::OfferDraw => {
                        &&& final(self)@ == old(self)@.after_draw()
                        &&& (r matches RemoteReply::DrawEnded(reply, event)
                            && reply@ == (ServerMessageView::DrawAccepted {
                                board: final(self)@.board,
                                legal_moves: final(self)@.legal_moves,
                            })
                            && event@ == final(self)@.state_event(None))
                    },
                },
                _ => final(self)@ == old(self)@ && r is Refused,
            },
    {
        match self.phase {
            ServerPhase::AwaitingHandshake => match msg {
                ClientMessage::Handshake { chosen_color } => {
                    let reply = ServerMessage::HandshakeAck {
                        features: clone_features(&self.features),
                        board: self.board.clone(),
                        legal_moves: clone_moves(&self.legal_moves),
                        result: self.result,
                    };
                    self.client_color = *chosen_color;
                    self.turn = Color::White;
                    self.phase = ServerPhase::AwaitingMoves;
                    let event = TcpToGame::Handshake {
                        board: self.board.clone(),
                        moves: clone_moves(&self.legal_moves),
                        features: clone_features(&self.features),
                        server_color: crate::types::oposite_color(&self.client_color),
                    };
                    RemoteReply::Ack(reply, event)
                },
                _ => {
                    self.phase = ServerPhase::Over;
                    RemoteReply::Violation
                },
            },
            ServerPhase::AwaitingMoves => match msg {
                ClientMessage::Handshake { .. } => {
                    self.phase = ServerPhase::Over;
                    RemoteReply::Violation
                },
                ClientMessage::SubmitMove(m) => {
                    if self.turn == self.client_color {
                        if m.start_x < 8 && m.start_y < 8 && m.end_x < 8 && m.end_y < 8 {
                            self.phase = ServerPhase::ApplyingRemote { m: *m };
                            RemoteReply::Submit
                        } else {
                            let reason: &str = "move is outside the board";
                            RemoteReply::Rejected(ServerMessage::MoveRejected {
                                board: self.board.clone(),
                                legal_moves: clone_moves(&self.legal_moves),
                                result: self.result,
                                reason: reason.to_owned(),
                            })
                        }
                    } else {
                        RemoteReply::Refused
                    }
                },
                ClientMessage::Resign => {
                    self.phase = ServerPhase::Over;
                    self.result = win_for(&crate::types::oposite_color(&self.client_color));
                    let reply = ServerMessage::Resigned {
                        board: self.board.clone(),
                        result: self.result,
                    };
                    let event = TcpToGame::State {
                        board: self.board.clone(),
                        moves: clone_moves(&self.legal_moves),
                        joever: self.result,
                        move_made: None,
                        turn: self.turn,
                    };
                    RemoteReply::ResignEnded(reply, event)
                },
                ClientMessage::OfferDraw => {
                    self.phase = ServerPhase::Over;
                    self.result = Joever::Draw;
                    let reply = ServerMessage::DrawAccepted {
                        board: self.board.clone(),
                        legal_moves: clone_moves(&self.legal_moves),
                    };
                    let event = TcpToGame::State {
                        board: self.board.clone(),
                        moves: clone_moves(&self.legal_moves),
                        joever: self.result,
                        move_made: None,
                        turn: self.turn,
                    };
                    RemoteReply::DrawEnded(reply, event)
                },
            },
            _ => RemoteReply::Refused,
        }
    }

    /// Handles one command from the local player. Commands count only on
    /// the local side's turn while the game runs; once the session is over
    /// no intent is accepted and nothing reaches the engine.
    pub fn on_local_command(&mut self, cmd: &GameToTcp) -> (r: LocalReply)
        requires
            old(self)@.wf(),
            !(old(self)@.phase is ApplyingLocal),
            !(old(self)@.phase is ApplyingRemote),
        ensures
            final(self)@.wf(),
            if old(self)@.phase is AwaitingMoves && old(self)@.turn == old(self)@.server_color() {
                match *cmd {
                    GameToTcp::Move(m) => {
                        if m.wf() {
                            &&& final(self)@ == old(self)@.submitting_local(m)
                            &&& r is Submit
                        } else {
                            &&& final(self)@ == old(self)@
                            &&& (r matches LocalReply::Rejected(event)
                                && event@ == (TcpToGameView::Error {
                                    message: off_board_reason(),
                                }))
                        }
                    },
                    GameToTcp::Draw => {
                        &&& final(self)@ == old(self)@.after_draw()
                        &&& (r matches LocalReply::DrawEnded(reply, event)
                            && reply@ == (ServerMessageView::DrawAccepted {
                                board: final(self)@.board,
                                legal_moves: final(self)@.legal_moves,
                            })
                            && event@ == final(self)@.state_event(None))
                    },
                    GameToTcp::Resign => {
                        &&& final(self)@ == old(self)@.after_resign(old(self)@.server_color())
                        &&& (r matches LocalReply::ResignEnded(reply, event)
                            && reply@ == (ServerMessageView::Resigned {
                                board: final(self)@.board,
                                result: final(self)@.result,
                            })
                            && event@ == final(self)@.state_event(None))
                    },
                }
            } else {
                final(self)@ == old(self)@ && r is Refused
            },
    {
        let local_turn = match self.phase {
            ServerPhase::AwaitingMoves => self.turn != self.client_color,
            _ => false,
        };
        if !local_turn {
            return LocalReply::Refused;
        }
        match cmd {
            GameToTcp::Move(m) => {
                if m.start_x < 8 && m.start_y < 8 && m.end_x < 8 && m.end_y < 8 {
                    self.phase = ServerPhase::ApplyingLocal { m: *m };
                    LocalReply::Submit
                } else {
                    let reason: &str = "move is outside the board";
                    LocalReply::Rejected(TcpToGame::Error { message: reason.to_owned() })
                }
            },
            GameToTcp::Draw => {
                self.phase = ServerPhase::Over;
                self.result = Joever::Draw;
                let reply = ServerMessage::DrawAccepted {
                    board: self.board.clone(),
                    legal_moves: clone_moves(&self.legal_moves),
                };
                let event = TcpToGame::State {
                    board: self.board.clone(),
                    moves: clone_moves(&self.legal_moves),
                    joever: self.result,
                    move_made: None,
                    turn: self.turn,
                };
                LocalReply::DrawEnded(reply, event)
            },
            GameToTcp::Resign => {
                self.phase = ServerPhase::Over;
                self.result = win_for(&self.client_color);
                let reply = ServerMessage::Resigned {
                    board: self.board.clone(),
                    result: self.result,
                };
                let event = TcpToGame::State {
                    board: self.board.clone(),
                    moves: clone_moves(&self.legal_moves),
                    joever: self.result,
                    move_made: None,
                    turn: self.turn,
                };
                LocalReply::ResignEnded(reply, event)
            },
        }
    }

    /// Records that the engine applied the pending move: the mirror takes
    /// the engine's new snapshot, the turn flips, and a terminal result
    /// ends the turn loop for good.
    pub fn engine_accepted(&mut self, m_board: Board, m_moves: Vec<Move>, m_result: Joever) -> (r:
        (ServerMessage, TcpToGame))
        requires
            old(self)@.wf(),
            old(self)@.phase is ApplyingLocal || old(self)@.phase is ApplyingRemote,
            m_board.wf(),
            moves_wf(m_moves@),
        ensures
            final(self)@.wf(),
            final(self)@ == old(self)@.after_accept(old(self)@.pending_move(), m_board@, m_moves@, m_result),
            r.0@ == final(self)@.state_msg(old(self)@.pending_move()),
            r.1@ == final(self)@.state_event(Some(old(self)@.pending_move())),
    {
        let m = match self.phase {
            ServerPhase::ApplyingLocal { m } => m,
            ServerPhase::ApplyingRemote { m } => m,
            _ => Move { start_x: 0, start_y: 0, end_x: 0, end_y: 0, promotion: Piece::Empty },
        };
        self.board = m_board;
        self.legal_moves = m_moves;
        self.last_move = Some(m);
        self.result = m_result;
        self.turn = crate::types::oposite_color(&self.turn);
        self.phase = if matches!(self.result, Joever::Ongoing) {
            ServerPhase::AwaitingMoves
        } else {
            ServerPhase::Over
        };
        let reply = ServerMessage::State {
            board: self.board.clone(),
            legal_moves: clone_moves(&self.legal_moves),
            result: self.result,
            move_applied: m,
        };
        let event = TcpToGame::State {
            board: self.board.clone(),
            moves: clone_moves(&self.legal_moves),
            joever: self.result,
            move_made: Some(m),
            turn: self.turn,
        };
        (reply, event)
    }

    /// Records that the engine refused the pending move: the session is
    /// exactly as before the submission, the same side stays to move, and
    /// only the submitting side learns of the failure.
    pub fn engine_rejected(&mut self, reason: String) -> (r: RejectReply)
        requires
            old(self)@.wf(),
            old(self)@.phase is ApplyingLocal || old(self)@.phase is ApplyingRemote,
        ensures
            final(self)@.wf(),
            final(self)@ == old(self)@.after_reject(),
            match r {
                RejectReply::Ui(event) => {
                    &&& old(self)@.phase is ApplyingLocal
                    &&& event@ == (TcpToGameView::Error { message: reason@ })
                },
                RejectReply::Peer(reply) => {
                    &&& old(self)@.phase is ApplyingRemote
                    &&& reply@ == final(self)@.reject_msg(reason@)
                },
            },
    {
        let was_local = matches!(self.phase, ServerPhase::ApplyingLocal { .. });
        self.phase = ServerPhase::AwaitingMoves;
        if was_local {
            RejectReply::Ui(TcpToGame::Error { message: reason })
        } else {
            RejectReply::Peer(ServerMessage::MoveRejected {
                board: self.board.clone(),
                legal_moves: clone_moves(&self.legal_moves),
                result: self.result,
                reason,
            })
        }
    }
}

impl ServerSessionView {
    /// The move whose engine verdict is pending.
    pub open spec fn pending_move(self) -> Move
        recommends
            self.phase is ApplyingLocal || self.phase is ApplyingRemote,
    {
        match self.phase {
            ServerPhase::ApplyingLocal { m } => m,
            ServerPhase::ApplyingRemote { m } => m,
            _ => Move { start_x: 0, start_y: 0, end_x: 0, end_y: 0, promotion: Piece::Empty },
        }
    }
}


/// The server session and its engine tell one story: the mirror the
/// session broadcasts is exactly the engine's state.
pub open spec fn synced<G: UniversalGame>(s: ServerSessionView, g: G) -> bool {
    &&& s.board == g.spec_board()
    &&& (!(s.phase is Over) ==> s.turn == g.spec_turn() && s.result == g.spec_result())
}

/// How one local UI command ended.
pub enum LocalOutcome {
    /// The engine applied the move: send the message, publish the event.
    Applied(ServerMessage, TcpToGame),
    /// The move was refused (by the engine, or before it for leaving the
    /// board): publish the event locally; the peer is not told and
    /// nothing changed. The local player simply tries again.
    Rejected(TcpToGame),
    /// The local player offered a draw, accepted at once.
    DrawEnded(ServerMessage, TcpToGame),
    /// The local player resigned.
    ResignEnded(ServerMessage, TcpToGame),
    /// Nothing was done; the state is unchanged.
    Refused,
}

/// How one peer message ended.
pub enum RemoteOutcome {
    /// The handshake was accepted.
    Ack(ServerMessage, TcpToGame),
    /// The engine applied the submitted move.
    Applied(ServerMessage, TcpToGame),
    /// The move was refused: answer the peer; nothing changed.
    Rejected(ServerMessage),
    /// The peer's draw offer was accepted.
    DrawEnded(ServerMessage, TcpToGame),
    /// The peer resigned.
    ResignEnded(ServerMessage, TcpToGame),
    /// The message does not fit the session's state: fatal.
    Violation,
    /// Nothing was done; the state is unchanged.
    Refused,
}

/// Drives one local move intent, draw offer or resignation through the
/// session and the engine. A refused move leaves session and engine
/// untouched and the same side to move: the local retry loop is the
/// caller's, iteration replacing unbounded recursion on rejection.
pub fn make_move<G: UniversalGame>(session: &mut ServerSession, game: &mut G, cmd: &GameToTcp) -> (r:
    LocalOutcome)
    requires
        old(session)@.wf(),
        !(old(session)@.phase is ApplyingLocal),
        !(old(session)@.phase is ApplyingRemote),
        old(game).wf(),
        synced(old(session)@, *old(game)),
    ensures
        final(session)@.wf(),
        final(game).wf(),
        synced(final(session)@, *final(game)),
        !(final(session)@.phase is ApplyingLocal),
        !(final(session)@.phase is ApplyingRemote),
        if old(session)@.phase is AwaitingMoves && old(session)@.turn == old(
            session,
        )@.server_color() {
            match *cmd {
                GameToTcp::Move(m) => match r {
                    LocalOutcome::Applied(reply, event) => {
                        &&& m.wf()
                        &&& final(session)@ == old(session)@.after_accept(
                            m,
                            final(game).spec_board(),
                            final(session)@.legal_moves,
                            final(game).spec_result(),
                        )
                        &&& final(game).spec_turn() == old(game).spec_turn().opposite()
                        &&& reply@ == final(session)@.state_msg(m)
                        &&& event@ == final(session)@.state_event(Some(m))
                    },
                    LocalOutcome::Rejected(event) => {
                        &&& *final(game) == *old(game)
                        &&& final(session)@ == old(session)@
                        &&& (event@ matches TcpToGameView::Error { .. })
                    },
                    _ => false,
                },
                GameToTcp::Draw => {
                    &&& *final(game) == *old(game)
                    &&& final(session)@ == old(session)@.after_draw()
                    &&& (r matches LocalOutcome::DrawEnded(reply, event)
                        && reply@ == (ServerMessageView::DrawAccepted {
                            board: final(session)@.board,
                            legal_moves: final(session)@.legal_moves,
                        })
                        && event@ == final(session)@.state_event(None))
                },
                GameToTcp::Resign => {
                    &&& *final(game) == *old(game)
                    &&& final(session)@ == old(session)@.after_resign(old(session)@.server_color())
                    &&& (r matches LocalOutcome::ResignEnded(reply, event)
                        && reply@ == (ServerMessageView::Resigned {
                            board: final(session)@.board,
                            result: final(session)@.result,
                        })
                        && event@ == final(session)@.state_event(None))
                },
            }
        } else {
            &&& final(session)@ == old(session)@
            &&& *final(game) == *old(game)
            &&& r is Refused
        },
{
    let reply = session.on_local_command(cmd);
    match reply {
        LocalReply::Submit => {
            let m = match cmd {
                GameToTcp::Move(mm) => *mm,
                _ => Move { start_x: 0, start_y: 0, end_x: 0, end_y: 0, promotion: Piece::Empty },
            };
            match game.try_move(m) {
                Ok(()) => {
                    let b = game.board();
                    let lm = game.possible_moves();
                    let j = game.joever();
                    let (out, event) = session.engine_accepted(b, lm, j);
                    proof {
                        assert(final(session)@ == old(session)@.after_accept(
                            m,
                            final(game).spec_board(),
                            final(session)@.legal_moves,
                            final(game).spec_result(),
                        ));
                    }
                    LocalOutcome::Applied(out, event)
                },
                Err(e) => {
                    match session.engine_rejected(e) {
                        RejectReply::Ui(event) => LocalOutcome::Rejected(event),
                        RejectReply::Peer(_) => {
                            proof {
                                assert(false);
                            }
                            LocalOutcome::Refused
                        },
                    }
                },
            }
        },
        LocalReply::Rejected(event) => LocalOutcome::Rejected(event),
        LocalReply::DrawEnded(out, event) => LocalOutcome::DrawEnded(out, event),
        LocalReply::ResignEnded(out, event) => LocalOutcome::ResignEnded(out, event),
        LocalReply::Refused => LocalOutcome::Refused,
    }
}

/// Drives one peer message through the session and the engine: the one
/// handshake, submitted moves with their engine verdict, resignations and
/// draw offers. A rejected move is answered over the wire and leaves the
/// turn with the peer; once the session is over nothing is accepted and
/// the engine is never consulted.
pub fn client_move<G: UniversalGame>(
    session: &mut ServerSession,
    game: &mut G,
    msg: &ClientMessage,
) -> (r: RemoteOutcome)
    requires
        old(session)@.wf(),
        !(old(session)@.phase is ApplyingLocal),
        !(old(session)@.phase is ApplyingRemote),
        old(game).wf(),
        synced(old(session)@, *old(game)),
    ensures
        final(session)@.wf(),
        final(game).wf(),
        synced(final(session)@, *final(game)),
        !(final(session)@.phase is ApplyingLocal),
        !(final(session)@.phase is ApplyingRemote),
        match old(session)@.phase {
            ServerPhase::AwaitingHandshake => match *msg {
                ClientMessage::Handshake { chosen_color } => {
                    &&& *final(game) == *old(game)
                    &&& final(session)@ == old(session)@.after_handshake(chosen_color)
                    &&& (r matches RemoteOutcome::Ack(reply, event)
                        && reply@ == old(session)@.ack_msg()
                        && event@ == final(session)@.ack_event())
                },
                _ => {
                    &&& *final(game) == *old(game)
                    &&& final(session)@ == old(session)@.after_violation()
                    &&& r is Violation
                },
            },
            ServerPhase::AwaitingMoves => match *msg {
                ClientMessage::Handshake { .. } => {
                    &&& *final(game) == *old(game)
                    &&& final(session)@ == old(session)@.after_violation()
                    &&& r is Violation
                },
                ClientMessage::SubmitMove(m) => {
                    if old(session)@.turn == old(session)@.client_color {
                        match r {
                            RemoteOutcome::Applied(reply, event) => {
                                &&& m.wf()
                                &&& final(session)@ == old(session)@.after_accept(
                                    m,
                                    final(game).spec_board(),
                                    final(session)@.legal_moves,
                                    final(game).spec_result(),
                                )
                                &&& final(game).spec_turn() == old(game).spec_turn().opposite()
                                &&& reply@ == final(session)@.state_msg(m)
                                &&& event@ == final(session)@.state_event(Some(m))
                            },
                            RemoteOutcome::Rejected(reply) => {
                                &&& *final(game) == *old(game)
                                &&& final(session)@ == old(session)@
                                &&& (reply@ matches ServerMessageView::MoveRejected { .. })
                            },
                            _ => false,
                        }
                    } else {
                        &&& *final(game) == *old(game)
                        &&& final(session)@ == old(session)@
                        &&& r is Refused
                    }
                },
                ClientMessage::Resign => {
                    &&& *final(game) == *old(game)
                    &&& final(session)@ == old(session)@.after_resign(old(session)@.client_color)
                    &&& (r matches RemoteOutcome::ResignEnded(reply, event)
                        && reply@ == (ServerMessageView::Resigned {
                            board: final(session)@.board,
                            result: final(session)@.result,
                        })
                        && event@ == final(session)@.state_event(None))
                },
                ClientMessage::OfferDraw => {
                    &&& *final(game) == *old(game)
                    &&& final(session)@ == old(session)@.after_draw()
                    &&& (r matches RemoteOutcome::DrawEnded(reply, event)
                        && reply@ == (ServerMessageView::DrawAccepted {
                            board: final(session)@.board,
                            legal_moves: final(session)@.legal_moves,
                        })
                        && event@ == final(session)@.state_event(None))
                },
            },
            _ => {
                &&& *final(game) == *old(game)
                &&& final(session)@ == old(session)@
                &&& r is Refused
            },
        },
{
    let reply = session.on_remote_message(msg);
    match reply {
        RemoteReply::Ack(out, event) => RemoteOutcome::Ack(out, event),
        RemoteReply::Submit => {
            let m = match msg {
                ClientMessage::SubmitMove(mm) => *mm,
                _ => Move { start_x: 0, start_y: 0, end_x: 0, end_y: 0, promotion: Piece::Empty },
            };
            match game.try_move(m) {
                Ok(()) => {
                    let b = game.board();
                    let lm = game.possible_moves();
                    let j = game.joever();
                    let (out, event) = session.engine_accepted(b, lm, j);
                    proof {
                        assert(final(session)@ == old(session)@.after_accept(
                            m,
                            final(game).spec_board(),
                            final(session)@.legal_moves,
                            final(game).spec_result(),
                        ));
                    }
                    RemoteOutcome::Applied(out, event)
                },
                Err(e) => {
                    match session.engine_rejected(e) {
                        RejectReply::Peer(out) => RemoteOutcome::Rejected(out),
                        RejectReply::Ui(_) => {
                            proof {
                                assert(false);
                            }
                            RemoteOutcome::Refused
                        },
                    }
                },
            }
        },
        RemoteReply::Rejected(out) => RemoteOutcome::Rejected(out),
        RemoteReply::DrawEnded(out, event) => RemoteOutcome::DrawEnded(out, event),
        RemoteReply::ResignEnded(out, event) => RemoteOutcome::ResignEnded(out, event),
        RemoteReply::Violation => RemoteOutcome::Violation,
        RemoteReply::Refused => RemoteOutcome::Refused,
    }
}

} // verus!
