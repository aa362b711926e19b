use chess_sync::board::Board;
use chess_sync::codec::{decode_client, decode_server, encode_client, encode_server};
use chess_sync::messages::{ClientMessage, ServerMessage};
use chess_sync::types::{Color, Features, Joever, Move, Piece};

fn all_pieces() -> Vec<Piece> {
    vec![
        Piece::Empty,
        Piece::WhitePawn,
        Piece::WhiteKnight,
        Piece::WhiteBishop,
        Piece::WhiteRook,
        Piece::WhiteQueen,
        Piece::WhiteKing,
        Piece::BlackPawn,
        Piece::BlackKnight,
        Piece::BlackBishop,
        Piece::BlackRook,
        Piece::BlackQueen,
        Piece::BlackKing,
    ]
}

fn all_joevers() -> Vec<Joever> {
    vec![
        Joever::Ongoing,
        Joever::White,
        Joever::Black,
        Joever::Draw,
        Joever::Indeterminate,
    ]
}

fn client_round_trip(m: ClientMessage) {
    let bytes = encode_client(&m);
    let (back, end) = decode_client(&bytes, 0).expect("decoding an encoded message");
    assert_eq!(back, m);
    assert_eq!(end, bytes.len());
}

fn server_round_trip(m: &ServerMessage) -> ServerMessage {
    let bytes = encode_server(m);
    let (back, end) = decode_server(&bytes, 0).expect("decoding an encoded message");
    assert_eq!(end, bytes.len());
    back
}

#[test]
fn handshake_round_trip_both_colors() {
    client_round_trip(ClientMessage::Handshake {
        chosen_color: Color::White,
    });
    client_round_trip(ClientMessage::Handshake {
        chosen_color: Color::Black,
    });
}

#[test]
fn submit_move_round_trip_boundary_coordinates() {
    client_round_trip(ClientMessage::SubmitMove(Move {
        start_x: 0,
        start_y: 0,
        end_x: 7,
        end_y: 7,
        promotion: Piece::Empty,
    }));
    client_round_trip(ClientMessage::SubmitMove(Move {
        start_x: 7,
        start_y: 0,
        end_x: 0,
        end_y: 7,
        promotion: Piece::Empty,
    }));
}

#[test]
fn submit_move_round_trip_every_promotion() {
    for p in all_pieces() {
        client_round_trip(ClientMessage::SubmitMove(Move {
            start_x: 4,
            start_y: 6,
            end_x: 4,
            end_y: 7,
            promotion: p,
        }));
    }
}

#[test]
fn resign_and_offer_draw_round_trip() {
    client_round_trip(ClientMessage::Resign);
    client_round_trip(ClientMessage::OfferDraw);
}

#[test]
fn handshake_ack_round_trip() {
    let msg = ServerMessage::HandshakeAck {
        features: vec![
            Features::Castling,
            Features::EnPassant,
            Features::Promotion,
            Features::PossibleMoveGeneration,
            Features::Stalemate,
            Features::Other(String::from("caf\u{e9} variant")),
        ],
        board: Board::starting(),
        legal_moves: vec![Move {
            start_x: 4,
            start_y: 1,
            end_x: 4,
            end_y: 3,
            promotion: Piece::Empty,
        }],
        result: Joever::Ongoing,
    };
    let back = server_round_trip(&msg);
    assert_eq!(back, msg);
}

#[test]
fn state_round_trip_every_result() {
    for j in all_joevers() {
        let msg = ServerMessage::State {
            board: Board::starting(),
            legal_moves: vec![],
            result: j,
            move_applied: Move {
                start_x: 4,
                start_y: 1,
                end_x: 4,
                end_y: 3,
                promotion: Piece::Empty,
            },
        };
        let back = server_round_trip(&msg);
        assert_eq!(back, msg);
    }
}

#[test]
fn move_rejected_round_trip() {
    let msg = ServerMessage::MoveRejected {
        board: Board::starting(),
        legal_moves: vec![],
        result: Joever::Ongoing,
        reason: String::from("no piece of the moving side on the start square"),
    };
    let back = server_round_trip(&msg);
    assert_eq!(back, msg);
}

#[test]
fn move_rejected_empty_reason_round_trip() {
    let msg = ServerMessage::MoveRejected {
        board: Board::new_empty(),
        legal_moves: vec![],
        result: Joever::Ongoing,
        reason: String::new(),
    };
    let back = server_round_trip(&msg);
    assert_eq!(back, msg);
}

#[test]
fn draw_accepted_and_resigned_round_trip() {
    let draw = ServerMessage::DrawAccepted {
        board: Board::starting(),
        legal_moves: vec![],
    };
    assert_eq!(server_round_trip(&draw), draw);
    let resigned = ServerMessage::Resigned {
        board: Board::starting(),
        result: Joever::Black,
    };
    assert_eq!(server_round_trip(&resigned), resigned);
}

#[test]
fn decode_truncated_fails() {
    let msg = ServerMessage::Resigned {
        board: Board::starting(),
        result: Joever::White,
    };
    let bytes = encode_server(&msg);
    for cut in [0, 1, 30, bytes.len() - 1] {
        assert!(decode_server(&bytes[..cut], 0).is_none());
    }
}

#[test]
fn decode_unknown_tag_fails() {
    assert!(decode_client(&[9u8], 0).is_none());
    assert!(decode_server(&[9u8], 0).is_none());
}

#[test]
fn decode_off_board_move_fails() {
    // tag SubmitMove, then a coordinate beyond the board
    assert!(decode_client(&[1u8, 8, 0, 0, 0, 0], 0).is_none());
}

#[test]
fn consecutive_units_decode_in_order() {
    let first = ClientMessage::Handshake {
        chosen_color: Color::Black,
    };
    let second = ClientMessage::SubmitMove(Move {
        start_x: 1,
        start_y: 1,
        end_x: 1,
        end_y: 2,
        promotion: Piece::Empty,
    });
    let third = ClientMessage::Resign;
    let mut stream = encode_client(&first);
    stream.extend(encode_client(&second));
    stream.extend(encode_client(&third));

    let (m1, p1) = decode_client(&stream, 0).unwrap();
    let (m2, p2) = decode_client(&stream, p1).unwrap();
    let (m3, p3) = decode_client(&stream, p2).unwrap();
    assert_eq!(m1, first);
    assert_eq!(m2, second);
    assert_eq!(m3, third);
    assert_eq!(p3, stream.len());
}
