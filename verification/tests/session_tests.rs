use chess_sync::client::ClientSession;
use chess_sync::codec::{decode_client, decode_server, encode_client, encode_server};
use chess_sync::engine::{StubEngine, UniversalGame};
use chess_sync::messages::{ClientMessage, GameToTcp, ServerMessage, TcpToGame};
use chess_sync::server::{
    client_move, make_move, LocalOutcome, RemoteOutcome, ServerSession, Wait,
};
use chess_sync::types::{Color, Joever, Move, Piece};

fn mv(sx: usize, sy: usize, ex: usize, ey: usize) -> Move {
    Move {
        start_x: sx,
        start_y: sy,
        end_x: ex,
        end_y: ey,
        promotion: Piece::Empty,
    }
}

/// A server session over a fresh stub engine, with the handshake already
/// exchanged: the client plays `client_color`.
fn started(client_color: Color) -> (ServerSession, StubEngine) {
    let mut game = StubEngine::new();
    let mut session = ServerSession::new(game.board(), game.possible_moves(), game.features());
    let hs = ClientMessage::Handshake {
        chosen_color: client_color,
    };
    match client_move(&mut session, &mut game, &hs) {
        RemoteOutcome::Ack(_, _) => {}
        _ => panic!("the first handshake must be acknowledged"),
    }
    (session, game)
}

#[test]
fn handshake_is_acknowledged_with_the_opening_snapshot() {
    let mut game = StubEngine::new();
    let mut session = ServerSession::new(game.board(), game.possible_moves(), game.features());
    assert_eq!(session.next_wait(), Wait::PeerMessage);
    let hs = ClientMessage::Handshake {
        chosen_color: Color::Black,
    };
    match client_move(&mut session, &mut game, &hs) {
        RemoteOutcome::Ack(reply, event) => {
            match reply {
                ServerMessage::HandshakeAck {
                    board,
                    legal_moves,
                    result,
                    ..
                } => {
                    assert_eq!(board, chess_sync::board::Board::starting());
                    assert!(legal_moves.is_empty());
                    assert_eq!(result, Joever::Ongoing);
                }
                _ => panic!("expected a handshake acknowledgement"),
            }
            match event {
                TcpToGame::Handshake { server_color, .. } => {
                    assert_eq!(server_color, Color::White);
                }
                _ => panic!("expected a handshake event"),
            }
        }
        _ => panic!("the first handshake must be acknowledged"),
    }
    // client chose Black, so the server's White side moves first
    assert_eq!(session.next_wait(), Wait::LocalMove);
}

#[test]
fn second_handshake_is_a_protocol_violation() {
    let (mut session, mut game) = started(Color::Black);
    let hs = ClientMessage::Handshake {
        chosen_color: Color::White,
    };
    match client_move(&mut session, &mut game, &hs) {
        RemoteOutcome::Violation => {}
        _ => panic!("a second handshake must be fatal"),
    }
    assert_eq!(session.next_wait(), Wait::Finished);
}

#[test]
fn turn_alternation_over_four_moves() {
    let (mut session, mut game) = started(Color::Black);
    assert_eq!(session.turn(), Color::White);

    let white_moves = [mv(4, 1, 4, 3), mv(3, 1, 3, 3)];
    let black_moves = [mv(4, 6, 4, 4), mv(3, 6, 3, 4)];
    for i in 0..2 {
        assert_eq!(session.turn(), Color::White);
        match make_move(&mut session, &mut game, &GameToTcp::Move(white_moves[i])) {
            LocalOutcome::Applied(_, _) => {}
            _ => panic!("a legal white move must apply"),
        }
        assert_eq!(session.turn(), Color::Black);
        match client_move(
            &mut session,
            &mut game,
            &ClientMessage::SubmitMove(black_moves[i]),
        ) {
            RemoteOutcome::Applied(_, _) => {}
            _ => panic!("a legal black move must apply"),
        }
        assert_eq!(session.turn(), Color::White);
    }
}

#[test]
fn illegal_move_changes_nothing_and_the_legal_retry_succeeds() {
    let (mut session, mut game) = started(Color::White);
    // client is White: moving from an empty square is illegal
    let board_before = session.board();
    let turn_before = session.turn();
    let result_before = session.result();

    let illegal = ClientMessage::SubmitMove(mv(4, 3, 4, 4));
    match client_move(&mut session, &mut game, &illegal) {
        RemoteOutcome::Rejected(reply) => match reply {
            ServerMessage::MoveRejected { reason, .. } => {
                assert_eq!(reason, "no piece of the moving side on the start square");
            }
            _ => panic!("expected a rejection message"),
        },
        _ => panic!("an illegal move must be rejected"),
    }
    assert_eq!(session.board(), board_before);
    assert_eq!(session.turn(), turn_before);
    assert_eq!(session.result(), result_before);
    assert_eq!(game.board(), board_before);
    assert_eq!(game.turn(), turn_before);
    assert_eq!(game.joever(), result_before);

    // the same side retries with a legal move and it applies
    match client_move(&mut session, &mut game, &ClientMessage::SubmitMove(mv(4, 1, 4, 3))) {
        RemoteOutcome::Applied(_, _) => {}
        _ => panic!("the legal retry must apply"),
    }
    assert_ne!(session.board(), board_before);
    assert_eq!(session.turn(), Color::Black);
}

#[test]
fn off_board_move_is_rejected_without_the_engine() {
    let (mut session, mut game) = started(Color::White);
    let turn_before = game.turn();
    let bad = ClientMessage::SubmitMove(Move {
        start_x: 9,
        start_y: 0,
        end_x: 0,
        end_y: 0,
        promotion: Piece::Empty,
    });
    match client_move(&mut session, &mut game, &bad) {
        RemoteOutcome::Rejected(reply) => match reply {
            ServerMessage::MoveRejected { reason, .. } => {
                assert_eq!(reason, "move is outside the board");
            }
            _ => panic!("expected a rejection message"),
        },
        _ => panic!("an off-board move must be rejected"),
    }
    assert_eq!(game.turn(), turn_before);
}

#[test]
fn terminal_state_refuses_further_moves() {
    let (mut session, mut game) = started(Color::Black);
    // the stub lets the white queen capture the black king outright
    match make_move(&mut session, &mut game, &GameToTcp::Move(mv(3, 0, 4, 7))) {
        LocalOutcome::Applied(_, event) => match event {
            TcpToGame::State { joever, .. } => assert_eq!(joever, Joever::White),
            _ => panic!("expected a state event"),
        },
        _ => panic!("the capture must apply"),
    }
    assert_eq!(session.result(), Joever::White);
    assert_eq!(session.next_wait(), Wait::Finished);

    // no further submission is accepted, local or remote
    let board_after = session.board();
    match client_move(&mut session, &mut game, &ClientMessage::SubmitMove(mv(4, 6, 4, 5))) {
        RemoteOutcome::Refused => {}
        _ => panic!("a move after the end must be refused"),
    }
    match make_move(&mut session, &mut game, &GameToTcp::Move(mv(0, 1, 0, 2))) {
        LocalOutcome::Refused => {}
        _ => panic!("an intent after the end must be refused"),
    }
    assert_eq!(session.board(), board_after);
    assert_eq!(session.result(), Joever::White);
}

#[test]
fn client_resignation_ends_the_session_with_a_server_win() {
    let (mut session, mut game) = started(Color::White);
    // client is White, so it is the peer's turn first
    match client_move(&mut session, &mut game, &ClientMessage::Resign) {
        RemoteOutcome::ResignEnded(reply, _) => match reply {
            ServerMessage::Resigned { result, .. } => assert_eq!(result, Joever::Black),
            _ => panic!("expected a resignation message"),
        },
        _ => panic!("a resignation must end the session"),
    }
    assert_eq!(session.result(), Joever::Black);
    assert_eq!(session.next_wait(), Wait::Finished);
}

#[test]
fn draw_offer_is_accepted_and_ends_the_session() {
    let (mut session, mut game) = started(Color::White);
    match client_move(&mut session, &mut game, &ClientMessage::OfferDraw) {
        RemoteOutcome::DrawEnded(reply, _) => match reply {
            ServerMessage::DrawAccepted { .. } => {}
            _ => panic!("expected a draw acceptance"),
        },
        _ => panic!("a draw offer must be accepted"),
    }
    assert_eq!(session.result(), Joever::Draw);
}

#[test]
fn local_resignation_makes_the_client_the_winner() {
    let (mut session, mut game) = started(Color::Black);
    // server is White and to move; the local player resigns
    match make_move(&mut session, &mut game, &GameToTcp::Resign) {
        LocalOutcome::ResignEnded(reply, _) => match reply {
            ServerMessage::Resigned { result, .. } => assert_eq!(result, Joever::Black),
            _ => panic!("expected a resignation message"),
        },
        _ => panic!("a local resignation must end the session"),
    }
    assert_eq!(session.result(), Joever::Black);
}

/// The end-to-end scenario: the server plays White, the client Black, the
/// handshake and one confirmed move travel through the wire codec, and
/// the client's mirror shows the pawn on its new square with Black to
/// move.
#[test]
fn end_to_end_white_opening_move_reaches_the_mirror() {
    let mut game = StubEngine::new();
    let mut server = ServerSession::new(game.board(), game.possible_moves(), game.features());
    let (mut client, hs) = ClientSession::new(Color::Black);

    // handshake, over the wire
    let wire = encode_client(&hs);
    let (hs_decoded, _) = decode_client(&wire, 0).unwrap();
    let ack = match client_move(&mut server, &mut game, &hs_decoded) {
        RemoteOutcome::Ack(reply, _) => reply,
        _ => panic!("the handshake must be acknowledged"),
    };
    let wire = encode_server(&ack);
    let (ack_decoded, _) = decode_server(&wire, 0).unwrap();
    client.on_server_message(ack_decoded).unwrap();
    assert_eq!(client.turn(), Color::White);

    // the server's local player moves the e-pawn two squares
    let e2e4 = mv(4, 1, 4, 3);
    let state = match make_move(&mut server, &mut game, &GameToTcp::Move(e2e4)) {
        LocalOutcome::Applied(reply, _) => reply,
        _ => panic!("the opening move must apply"),
    };
    match &state {
        ServerMessage::State { move_applied, .. } => assert_eq!(*move_applied, e2e4),
        _ => panic!("expected a state message"),
    }
    let wire = encode_server(&state);
    let (state_decoded, _) = decode_server(&wire, 0).unwrap();
    match client.on_server_message(state_decoded).unwrap() {
        TcpToGame::State {
            move_made, turn, ..
        } => {
            assert_eq!(move_made, Some(e2e4));
            assert_eq!(turn, Color::Black);
        }
        _ => panic!("expected a state event"),
    }

    // the mirror agrees with the authority, square for square
    assert_eq!(client.last_move(), Some(e2e4));
    assert_eq!(server.last_move(), Some(e2e4));
    let mirror = client.board();
    assert_eq!(mirror, server.board());
    assert_eq!(mirror.at(4, 3), Piece::WhitePawn);
    assert_eq!(mirror.at(4, 1), Piece::Empty);
    assert_eq!(client.turn(), Color::Black);
}

/// Mirror fidelity over a longer exchange: after several confirmed moves
/// in both directions the client's board equals the server's exactly.
#[test]
fn mirror_stays_in_step_over_many_moves() {
    let mut game = StubEngine::new();
    let mut server = ServerSession::new(game.board(), game.possible_moves(), game.features());
    let (mut client, hs) = ClientSession::new(Color::Black);
    let ack = match client_move(&mut server, &mut game, &hs) {
        RemoteOutcome::Ack(reply, _) => reply,
        _ => panic!("the handshake must be acknowledged"),
    };
    client.on_server_message(ack).unwrap();

    let whites = [mv(4, 1, 4, 3), mv(3, 1, 3, 3), mv(2, 1, 2, 3)];
    let blacks = [mv(4, 6, 4, 4), mv(3, 6, 3, 4), mv(2, 6, 2, 4)];
    for i in 0..3 {
        let state = match make_move(&mut server, &mut game, &GameToTcp::Move(whites[i])) {
            LocalOutcome::Applied(reply, _) => reply,
            _ => panic!("a legal white move must apply"),
        };
        client.on_server_message(state).unwrap();
        assert_eq!(client.board(), server.board());
        assert_eq!(client.turn(), server.turn());

        let sent = client.on_local_command(&GameToTcp::Move(blacks[i])).unwrap();
        let state = match client_move(&mut server, &mut game, &sent) {
            RemoteOutcome::Applied(reply, _) => reply,
            _ => panic!("a legal black move must apply"),
        };
        client.on_server_message(state).unwrap();
        assert_eq!(client.board(), server.board());
        assert_eq!(client.turn(), server.turn());
    }
}

#[test]
fn client_rejection_keeps_the_mirror_and_reprompts() {
    let mut game = StubEngine::new();
    let mut server = ServerSession::new(game.board(), game.possible_moves(), game.features());
    let (mut client, hs) = ClientSession::new(Color::White);
    let ack = match client_move(&mut server, &mut game, &hs) {
        RemoteOutcome::Ack(reply, _) => reply,
        _ => panic!("the handshake must be acknowledged"),
    };
    client.on_server_message(ack).unwrap();
    assert_eq!(client.next_wait(), Wait::LocalMove);

    let board_before = client.board();
    let sent = client.on_local_command(&GameToTcp::Move(mv(4, 3, 4, 4))).unwrap();
    let rejection = match client_move(&mut server, &mut game, &sent) {
        RemoteOutcome::Rejected(reply) => reply,
        _ => panic!("an illegal move must be rejected"),
    };
    match client.on_server_message(rejection).unwrap() {
        TcpToGame::Error { message } => {
            assert_eq!(message, "no piece of the moving side on the start square");
        }
        _ => panic!("expected an error event"),
    }
    assert_eq!(client.board(), board_before);
    assert_eq!(client.turn(), Color::White);
    assert_eq!(client.next_wait(), Wait::LocalMove);
}

#[test]
fn unexpected_ack_kills_the_client_session() {
    let (mut client, _) = ClientSession::new(Color::Black);
    let stray = ServerMessage::Resigned {
        board: chess_sync::board::Board::starting(),
        result: Joever::White,
    };
    assert!(client.on_server_message(stray).is_err());
    assert_eq!(client.next_wait(), Wait::Finished);
}

#[test]
fn client_draw_offer_is_mirrored_to_a_drawn_session() {
    let mut game = StubEngine::new();
    let mut server = ServerSession::new(game.board(), game.possible_moves(), game.features());
    let (mut client, hs) = ClientSession::new(Color::White);
    let ack = match client_move(&mut server, &mut game, &hs) {
        RemoteOutcome::Ack(reply, _) => reply,
        _ => panic!("the handshake must be acknowledged"),
    };
    client.on_server_message(ack).unwrap();

    // the client's player offers a draw on its turn
    let sent = client.on_local_command(&GameToTcp::Draw).unwrap();
    assert_eq!(sent, ClientMessage::OfferDraw);
    let reply = match client_move(&mut server, &mut game, &sent) {
        RemoteOutcome::DrawEnded(reply, _) => reply,
        _ => panic!("the draw offer must be accepted"),
    };
    match client.on_server_message(reply).unwrap() {
        TcpToGame::State {
            joever, move_made, ..
        } => {
            assert_eq!(joever, Joever::Draw);
            assert_eq!(move_made, None);
        }
        _ => panic!("expected a terminal state event"),
    }
    assert_eq!(client.next_wait(), Wait::Finished);
    assert_eq!(server.result(), Joever::Draw);
}

#[test]
fn client_resignation_is_mirrored_to_a_lost_session() {
    let mut game = StubEngine::new();
    let mut server = ServerSession::new(game.board(), game.possible_moves(), game.features());
    let (mut client, hs) = ClientSession::new(Color::White);
    let ack = match client_move(&mut server, &mut game, &hs) {
        RemoteOutcome::Ack(reply, _) => reply,
        _ => panic!("the handshake must be acknowledged"),
    };
    client.on_server_message(ack).unwrap();

    let sent = client.on_local_command(&GameToTcp::Resign).unwrap();
    assert_eq!(sent, ClientMessage::Resign);
    let reply = match client_move(&mut server, &mut game, &sent) {
        RemoteOutcome::ResignEnded(reply, _) => reply,
        _ => panic!("the resignation must end the session"),
    };
    match client.on_server_message(reply).unwrap() {
        TcpToGame::State { joever, .. } => assert_eq!(joever, Joever::Black),
        _ => panic!("expected a terminal state event"),
    }
    assert_eq!(client.result(), Joever::Black);
}

#[test]
fn server_side_resignation_reaches_a_waiting_client() {
    let mut game = StubEngine::new();
    let mut server = ServerSession::new(game.board(), game.possible_moves(), game.features());
    let (mut client, hs) = ClientSession::new(Color::Black);
    let ack = match client_move(&mut server, &mut game, &hs) {
        RemoteOutcome::Ack(reply, _) => reply,
        _ => panic!("the handshake must be acknowledged"),
    };
    client.on_server_message(ack).unwrap();
    // the server's player resigns on its own turn; the client is waiting
    // for the server's move and receives the terminal message instead
    let reply = match make_move(&mut server, &mut game, &GameToTcp::Resign) {
        LocalOutcome::ResignEnded(reply, _) => reply,
        _ => panic!("a local resignation must end the session"),
    };
    match client.on_server_message(reply).unwrap() {
        TcpToGame::State { joever, .. } => assert_eq!(joever, Joever::Black),
        _ => panic!("expected a terminal state event"),
    }
    assert_eq!(client.result(), Joever::Black);
    assert_eq!(client.next_wait(), Wait::Finished);
}
