use vstd::prelude::*;

use vstd::bytes::{
    lemma_auto_spec_u64_to_from_le_bytes, spec_u64_from_le_bytes, spec_u64_to_le_bytes,
    u64_from_le_bytes, u64_to_le_bytes,
};
use vstd::slice::slice_subrange;

use crate::board::Board;
use crate::messages::{ClientMessage, ServerMessage, ServerMessageView};
use crate::types::Features;
use vstd::string::StrSliceExecFns;
use vstd::string::StringSliceAdditionalSpecFns;
use crate::types::{Color, FeaturesView, Joever, Move, Piece};

verus! {

// ---------------------------------------------------------------------
// Tag bytes for the atoms of the wire format. Each message is a tagged
// record of fixed-width atoms, length-prefixed lists and length-prefixed
// UTF-8 text, so every encoded value determines its own end: the stream
// needs no framing beyond concatenation.
// ---------------------------------------------------------------------
/// The wire byte for a colour.
pub open spec fn color_byte(c: Color) -> u8 {
    match c {
        Color::White => 0,
        Color::Black => 1,
    }
}

/// The colour a wire byte names.
pub open spec fn byte_color(b: u8) -> Color {
    if b == 0 {
        Color::White
    } else {
        Color::Black
    }
}

/// The wire byte for a square's occupant.
pub open spec fn piece_byte(p: Piece) -> u8 {
    match p {
        Piece::Empty => 0,
        Piece::WhitePawn => 1,
        Piece::WhiteKnight => 2,
        Piece::WhiteBishop => 3,
        Piece::WhiteRook => 4,
        Piece::WhiteQueen => 5,
        Piece::WhiteKing => 6,
        Piece::BlackPawn => 7,
        Piece::BlackKnight => 8,
        Piece::BlackBishop => 9,
        Piece::BlackRook => 10,
        Piece::BlackQueen => 11,
        Piece::BlackKing => 12,
    }
}

/// The occupant a wire byte names.
pub open spec fn byte_piece(b: u8) -> Piece {
    if b == 0 {
        Piece::Empty
    } else if b == 1 {
        Piece::WhitePawn
    } else if b == 2 {
        Piece::WhiteKnight
    } else if b == 3 {
        Piece::WhiteBishop
    } else if b == 4 {
        Piece::WhiteRook
    } else if b == 5 {
        Piece::WhiteQueen
    } else if b == 6 {
        Piece::WhiteKing
    } else if b == 7 {
        Piece::BlackPawn
    } else if b == 8 {
        Piece::BlackKnight
    } else if b == 9 {
        Piece::BlackBishop
    } else if b == 10 {
        Piece::BlackRook
    } else if b == 11 {
        Piece::BlackQueen
    } else {
        Piece::BlackKing
    }
}

/// The wire byte for a game result.
pub open spec fn joever_byte(j: Joever) -> u8 {
    match j {
        Joever::Ongoing => 0,
        Joever::White => 1,
        Joever::Black => 2,
        Joever::Draw => 3,
        Joever::Indeterminate => 4,
    }
}

/// The game result a wire byte names.
pub open spec fn byte_joever(b: u8) -> Joever {
    if b == 0 {
        Joever::Ongoing
    } else if b == 1 {
        Joever::White
    } else if b == 2 {
        Joever::Black
    } else if b == 3 {
        Joever::Draw
    } else {
        Joever::Indeterminate
    }
}

// ---------------------------------------------------------------------
// Spec-level encoders.
// ---------------------------------------------------------------------
/// The eight-byte little-endian length prefix for `n` items or bytes.
pub open spec fn enc_len(n: nat) -> Seq<u8> {
    spec_u64_to_le_bytes(n as u64)
}

/// The five bytes of one move: the four coordinates and the promotion
/// piece.
pub open spec fn enc_move(m: Move) -> Seq<u8> {
    seq![
        m.start_x as u8,
        m.start_y as u8,
        m.end_x as u8,
        m.end_y as u8,
        piece_byte(m.promotion),
    ]
}

/// The 64 bytes of a board, row-major.
pub open spec fn enc_board(b: Seq<Piece>) -> Seq<u8> {
    Seq::new(b.len(), |i: int| piece_byte(b[i]))
}

// ---------------------------------------------------------------------
// Spec-level decoders. Each takes the remaining bytes of the stream and
// yields the decoded value and how many bytes it consumed, or nothing
// when the bytes do not begin with a well-formed value.
// ---------------------------------------------------------------------
/// Decodes a length prefix.
pub open spec fn dec_len(b: Seq<u8>) -> Option<(u64, int)> {
    if b.len() >= 8 {
        Some((spec_u64_from_le_bytes(b.take(8)), 8))
    } else {
        None
    }
}

/// Decodes a colour byte.
pub open spec fn dec_color(b: Seq<u8>) -> Option<(Color, int)> {
    if b.len() >= 1 && b[0] <= 1 {
        Some((byte_color(b[0]), 1))
    } else {
        None
    }
}

/// Decodes a result byte.
pub open spec fn dec_joever(b: Seq<u8>) -> Option<(Joever, int)> {
    if b.len() >= 1 && b[0] <= 4 {
        Some((byte_joever(b[0]), 1))
    } else {
        None
    }
}

/// Decodes one move; its coordinates must lie on the board.
pub open spec fn dec_move(b: Seq<u8>) -> Option<(Move, int)> {
    if b.len() >= 5 && b[0] < 8 && b[1] < 8 && b[2] < 8 && b[3] < 8 && b[4] <= 12 {
        Some(
            (
                Move {
                    start_x: b[0] as usize,
                    start_y: b[1] as usize,
                    end_x: b[2] as usize,
                    end_y: b[3] as usize,
                    promotion: byte_piece(b[4]),
                },
                5,
            ),
        )
    } else {
        None
    }
}

/// Whether the first 64 bytes are piece bytes.
pub open spec fn board_bytes_ok(b: Seq<u8>) -> bool {
    b.len() >= 64 && (forall|i: int| 0 <= i < 64 ==> b[i] <= 12)
}

/// Decodes a board of 64 squares.
pub open spec fn dec_board(b: Seq<u8>) -> Option<(Seq<Piece>, int)> {
    if board_bytes_ok(b) {
        Some((Seq::new(64, |i: int| byte_piece(b[i])), 64))
    } else {
        None
    }
}

// ---------------------------------------------------------------------
// Round trips of the atoms.
// ---------------------------------------------------------------------
/// A length prefix read back from the head of a stream gives the length
/// it was written from.
pub proof fn lemma_dec_len(n: nat, rest: Seq<u8>)
    requires
        n < 0x1_0000_0000_0000_0000,
    ensures
        enc_len(n).len() == 8,
        dec_len(enc_len(n) + rest) == Some(((n as u64), 8int)),
        (enc_len(n) + rest).skip(8) == rest,
{
    lemma_auto_spec_u64_to_from_le_bytes();
    assert((enc_len(n) + rest).take(8) =~= enc_len(n));
    assert((enc_len(n) + rest).skip(8) =~= rest);
}

/// Piece bytes name the piece they were written from.
pub proof fn lemma_piece_byte_roundtrip(p: Piece)
    ensures
        byte_piece(piece_byte(p)) == p,
        piece_byte(p) <= 12,
{
}

/// A move read back from the head of a stream gives the move it was
/// written from.
pub proof fn lemma_dec_move(m: Move, rest: Seq<u8>)
    requires
        m.wf(),
    ensures
        enc_move(m).len() == 5,
        dec_move(enc_move(m) + rest) == Some((m, 5int)),
        (enc_move(m) + rest).skip(5) == rest,
{
    assert((enc_move(m) + rest).skip(5) =~= rest);
    let b = enc_move(m) + rest;
    assert(b[0] == m.start_x as u8);
    assert(b[1] == m.start_y as u8);
    assert(b[2] == m.end_x as u8);
    assert(b[3] == m.end_y as u8);
    assert(b[4] == piece_byte(m.promotion));
    lemma_piece_byte_roundtrip(m.promotion);
}

/// A board read back from the head of a stream gives the board it was
/// written from.
pub proof fn lemma_dec_board(bd: Seq<Piece>, rest: Seq<u8>)
    requires
        bd.len() == 64,
    ensures
        enc_board(bd).len() == 64,
        dec_board(enc_board(bd) + rest) == Some((bd, 64int)),
        (enc_board(bd) + rest).skip(64) == rest,
{
    let b = enc_board(bd) + rest;
    assert forall|i: int| 0 <= i < 64 implies b[i] <= 12 && byte_piece(b[i]) == bd[i] by {
        assert(b[i] == piece_byte(bd[i]));
        lemma_piece_byte_roundtrip(bd[i]);
    }
    assert(Seq::new(64, |i: int| byte_piece(b[i])) =~= bd);
    assert(b.skip(64) =~= rest);
}


// ---------------------------------------------------------------------
// Lists, text, features.
// ---------------------------------------------------------------------
/// The concatenated bodies of a move list, without its length prefix.
pub open spec fn enc_move_list(s: Seq<Move>) -> Seq<u8>
    decreases s.len(),
{
    if s.len() == 0 {
        Seq::empty()
    } else {
        enc_move(s[0]) + enc_move_list(s.skip(1))
    }
}

/// A move list on the wire: its length, then each move.
pub open spec fn enc_moves(s: Seq<Move>) -> Seq<u8> {
    enc_len(s.len()) + enc_move_list(s)
}

/// Decodes `n` consecutive moves.
pub open spec fn dec_move_list(b: Seq<u8>, n: nat) -> Option<(Seq<Move>, int)>
    decreases n,
{
    if n == 0 {
        Some((Seq::empty(), 0))
    } else {
        match dec_move(b) {
            None => None,
            Some((m, k)) => match dec_move_list(b.skip(k), (n - 1) as nat) {
                None => None,
                Some((s, j)) => Some((seq![m] + s, k + j)),
            },
        }
    }
}

/// Decodes a length-prefixed move list.
pub open spec fn dec_moves(b: Seq<u8>) -> Option<(Seq<Move>, int)> {
    match dec_len(b) {
        None => None,
        Some((n, k)) => match dec_move_list(b.skip(k), n as nat) {
            None => None,
            Some((s, j)) => Some((s, k + j)),
        },
    }
}

/// Text on the wire: the byte length of its UTF-8 form, then those bytes.
pub open spec fn enc_string(s: Seq<char>) -> Seq<u8> {
    enc_len(vstd::utf8::encode_utf8(s).len()) + vstd::utf8::encode_utf8(s)
}

/// Decodes length-prefixed UTF-8 text.
pub open spec fn dec_string(b: Seq<u8>) -> Option<(Seq<char>, int)> {
    match dec_len(b) {
        None => None,
        Some((n, k)) => {
            let tail = b.skip(k);
            if tail.len() >= n && vstd::utf8::valid_utf8(tail.take(n as int)) {
                Some((vstd::utf8::decode_utf8(tail.take(n as int)), k + n))
            } else {
                None
            }
        },
    }
}

/// The tag byte of a feature.
pub open spec fn feature_tag(f: FeaturesView) -> u8 {
    match f {
        FeaturesView::Castling => 0,
        FeaturesView::EnPassant => 1,
        FeaturesView::Promotion => 2,
        FeaturesView::PossibleMoveGeneration => 3,
        FeaturesView::Stalemate => 4,
        FeaturesView::Other(_) => 5,
    }
}

/// One feature on the wire: its tag, and for the open-ended variant its
/// name as text.
pub open spec fn enc_feature(f: FeaturesView) -> Seq<u8> {
    match f {
        FeaturesView::Other(s) => seq![5u8] + enc_string(s),
        _ => seq![feature_tag(f)],
    }
}

/// Decodes one feature.
pub open spec fn dec_feature(b: Seq<u8>) -> Option<(FeaturesView, int)> {
    if b.len() < 1 {
        None
    } else if b[0] == 0 {
        Some((FeaturesView::Castling, 1))
    } else if b[0] == 1 {
        Some((FeaturesView::EnPassant, 1))
    } else if b[0] == 2 {
        Some((FeaturesView::Promotion, 1))
    } else if b[0] == 3 {
        Some((FeaturesView::PossibleMoveGeneration, 1))
    } else if b[0] == 4 {
        Some((FeaturesView::Stalemate, 1))
    } else if b[0] == 5 {
        match dec_string(b.skip(1)) {
            None => None,
            Some((s, k)) => Some((FeaturesView::Other(s), 1 + k)),
        }
    } else {
        None
    }
}

/// The concatenated bodies of a feature list, without its length prefix.
pub open spec fn enc_feature_list(s: Seq<FeaturesView>) -> Seq<u8>
    decreases s.len(),
{
    if s.len() == 0 {
        Seq::empty()
    } else {
        enc_feature(s[0]) + enc_feature_list(s.skip(1))
    }
}

/// A feature list on the wire: its length, then each feature.
pub open spec fn enc_features(s: Seq<FeaturesView>) -> Seq<u8> {
    enc_len(s.len()) + enc_feature_list(s)
}

/// Decodes `n` consecutive features.
pub open spec fn dec_feature_list(b: Seq<u8>, n: nat) -> Option<(Seq<FeaturesView>, int)>
    decreases n,
{
    if n == 0 {
        Some((Seq::empty(), 0))
    } else {
        match dec_feature(b) {
            None => None,
            Some((f, k)) => match dec_feature_list(b.skip(k), (n - 1) as nat) {
                None => None,
                Some((s, j)) => Some((seq![f] + s, k + j)),
            },
        }
    }
}

/// Decodes a length-prefixed feature list.
pub open spec fn dec_features(b: Seq<u8>) -> Option<(Seq<FeaturesView>, int)> {
    match dec_len(b) {
        None => None,
        Some((n, k)) => match dec_feature_list(b.skip(k), n as nat) {
            None => None,
            Some((s, j)) => Some((s, k + j)),
        },
    }
}

/// The machine bound on one encoded value: every list is shorter than
/// 2^64 items and every text shorter than 2^64 UTF-8 bytes, so each
/// length fits its eight-byte prefix.
pub open spec fn feature_fits(f: FeaturesView) -> bool {
    match f {
        FeaturesView::Other(s) => vstd::utf8::encode_utf8(s).len() < 0x1_0000_0000_0000_0000,
        _ => true,
    }
}

/// Every feature of the list fits, and so does the list.
pub open spec fn features_fit(s: Seq<FeaturesView>) -> bool {
    &&& s.len() < 0x1_0000_0000_0000_0000
    &&& (forall|i: int| 0 <= i < s.len() ==> feature_fits(#[trigger] s[i]))
}

// ---------------------------------------------------------------------
// Round trips of lists, text and features.
// ---------------------------------------------------------------------
/// A move list body read back from the head of a stream gives the moves
/// it was written from.
pub proof fn lemma_dec_move_list(s: Seq<Move>, rest: Seq<u8>)
    requires
        crate::server::moves_wf(s),
    ensures
        dec_move_list(enc_move_list(s) + rest, s.len()) == Some(
            (s, enc_move_list(s).len() as int),
        ),
        (enc_move_list(s) + rest).skip(enc_move_list(s).len() as int) == rest,
    decreases s.len(),
{
    if s.len() == 0 {
        assert(enc_move_list(s) + rest =~= rest);
        assert(Seq::<Move>::empty() =~= s);
    } else {
        let tail = s.skip(1);
        let tailenc = enc_move_list(tail);
        assert(enc_move_list(s) + rest =~= enc_move(s[0]) + (tailenc + rest));
        lemma_dec_move(s[0], tailenc + rest);
        assert(crate::server::moves_wf(tail)) by {
            assert(forall|i: int| 0 <= i < tail.len() ==> tail[i] == s[i + 1]);
        }
        lemma_dec_move_list(tail, rest);
        assert(seq![s[0]] + tail =~= s);
        assert((enc_move_list(s) + rest).skip(enc_move_list(s).len() as int) =~= rest);
    }
}

/// A move list read back from the head of a stream gives the moves it
/// was written from.
pub proof fn lemma_dec_moves(s: Seq<Move>, rest: Seq<u8>)
    requires
        crate::server::moves_wf(s),
        s.len() < 0x1_0000_0000_0000_0000,
    ensures
        dec_moves(enc_moves(s) + rest) == Some((s, enc_moves(s).len() as int)),
        (enc_moves(s) + rest).skip(enc_moves(s).len() as int) == rest,
{
    let body = enc_move_list(s);
    assert(enc_moves(s) + rest =~= enc_len(s.len()) + (body + rest));
    lemma_dec_len(s.len(), body + rest);
    lemma_dec_move_list(s, rest);
    assert((enc_moves(s) + rest).skip(enc_moves(s).len() as int) =~= rest);
}

/// Text read back from the head of a stream gives the characters it was
/// written from.
pub proof fn lemma_dec_string(s: Seq<char>, rest: Seq<u8>)
    requires
        vstd::utf8::encode_utf8(s).len() < 0x1_0000_0000_0000_0000,
    ensures
        dec_string(enc_string(s) + rest) == Some((s, enc_string(s).len() as int)),
        (enc_string(s) + rest).skip(enc_string(s).len() as int) == rest,
{
    let body = vstd::utf8::encode_utf8(s);
    assert(enc_string(s) + rest =~= enc_len(body.len()) + (body + rest));
    lemma_dec_len(body.len(), body + rest);
    assert((body + rest).take(body.len() as int) =~= body);
    vstd::utf8::encode_utf8_valid_utf8(s);
    vstd::utf8::encode_utf8_decode_utf8(s);
    assert((enc_string(s) + rest).skip(enc_string(s).len() as int) =~= rest);
}

/// A feature read back from the head of a stream gives the feature it
/// was written from.
pub proof fn lemma_dec_feature(f: FeaturesView, rest: Seq<u8>)
    requires
        feature_fits(f),
    ensures
        dec_feature(enc_feature(f) + rest) == Some((f, enc_feature(f).len() as int)),
        (enc_feature(f) + rest).skip(enc_feature(f).len() as int) == rest,
{
    match f {
        FeaturesView::Other(s) => {
            assert(enc_feature(f) + rest =~= seq![5u8] + (enc_string(s) + rest));
            assert((seq![5u8] + (enc_string(s) + rest)).skip(1) =~= enc_string(s) + rest);
            lemma_dec_string(s, rest);
            assert((enc_feature(f) + rest).skip(enc_feature(f).len() as int) =~= rest);
        },
        _ => {
            assert((enc_feature(f) + rest).skip(1) =~= rest);
        },
    }
}

/// A feature list body read back from the head of a stream gives the
/// features it was written from.
pub proof fn lemma_dec_feature_list(s: Seq<FeaturesView>, rest: Seq<u8>)
    requires
        forall|i: int| 0 <= i < s.len() ==> feature_fits(#[trigger] s[i]),
    ensures
        dec_feature_list(enc_feature_list(s) + rest, s.len()) == Some(
            (s, enc_feature_list(s).len() as int),
        ),
        (enc_feature_list(s) + rest).skip(enc_feature_list(s).len() as int) == rest,
    decreases s.len(),
{
    if s.len() == 0 {
        assert(enc_feature_list(s) + rest =~= rest);
        assert(Seq::<FeaturesView>::empty() =~= s);
    } else {
        let tail = s.skip(1);
        let tailenc = enc_feature_list(tail);
        assert(enc_feature_list(s) + rest =~= enc_feature(s[0]) + (tailenc + rest));
        lemma_dec_feature(s[0], tailenc + rest);
        assert(forall|i: int| 0 <= i < tail.len() ==> tail[i] == s[i + 1]);
        lemma_dec_feature_list(tail, rest);
        assert(seq![s[0]] + tail =~= s);
        assert((enc_feature_list(s) + rest).skip(enc_feature_list(s).len() as int) =~= rest);
    }
}

/// A feature list read back from the head of a stream gives the features
/// it was written from.
pub proof fn lemma_dec_features(s: Seq<FeaturesView>, rest: Seq<u8>)
    requires
        features_fit(s),
    ensures
        dec_features(enc_features(s) + rest) == Some((s, enc_features(s).len() as int)),
        (enc_features(s) + rest).skip(enc_features(s).len() as int) == rest,
{
    let body = enc_feature_list(s);
    assert(enc_features(s) + rest =~= enc_len(s.len()) + (body + rest));
    lemma_dec_len(s.len(), body + rest);
    lemma_dec_feature_list(s, rest);
    assert((enc_features(s) + rest).skip(enc_features(s).len() as int) =~= rest);
}


// ---------------------------------------------------------------------
// Whole messages.
// ---------------------------------------------------------------------
/// A client message on the wire: a tag byte, then the variant's fields.
pub open spec fn enc_client(m: ClientMessage) -> Seq<u8> {
    match m {
        ClientMessage::Handshake { chosen_color } => seq![0u8, color_byte(chosen_color)],
        ClientMessage::SubmitMove(mv) => seq![1u8] + enc_move(mv),
        ClientMessage::Resign => seq![2u8],
        ClientMessage::OfferDraw => seq![3u8],
    }
}

/// Decodes one client message from the head of a stream.
pub open spec fn dec_client(b: Seq<u8>) -> Option<(ClientMessage, int)> {
    if b.len() < 1 {
        None
    } else if b[0] == 0 {
        match dec_color(b.skip(1)) {
            None => None,
            Some((c, k)) => Some(((ClientMessage::Handshake { chosen_color: c }), 1 + k)),
        }
    } else if b[0] == 1 {
        match dec_move(b.skip(1)) {
            None => None,
            Some((m, k)) => Some((ClientMessage::SubmitMove(m), 1 + k)),
        }
    } else if b[0] == 2 {
        Some((ClientMessage::Resign, 1))
    } else if b[0] == 3 {
        Some((ClientMessage::OfferDraw, 1))
    } else {
        None
    }
}

/// A server message on the wire: a tag byte, then the variant's fields.
pub open spec fn enc_server(v: ServerMessageView) -> Seq<u8> {
    match v {
        ServerMessageView::HandshakeAck { features, board, legal_moves, result } => {
            seq![0u8] + enc_features(features) + enc_board(board) + enc_moves(legal_moves)
                + seq![joever_byte(result)]
        },
        ServerMessageView::State { board, legal_moves, result, move_applied } => {
            seq![1u8] + enc_board(board) + enc_moves(legal_moves) + seq![joever_byte(result)]
                + enc_move(move_applied)
        },
        ServerMessageView::MoveRejected { board, legal_moves, result, reason } => {
            seq![2u8] + enc_board(board) + enc_moves(legal_moves) + seq![joever_byte(result)]
                + enc_string(reason)
        },
        ServerMessageView::DrawAccepted { board, legal_moves } => {
            seq![3u8] + enc_board(board) + enc_moves(legal_moves)
        },
        ServerMessageView::Resigned { board, result } => {
            seq![4u8] + enc_board(board) + seq![joever_byte(result)]
        },
    }
}

/// Decodes one server message from the head of a stream.
pub open spec fn dec_server(b: Seq<u8>) -> Option<(ServerMessageView, int)> {
    if b.len() < 1 {
        None
    } else if b[0] == 0 {
        match dec_features(b.skip(1)) {
            None => None,
            Some((f, k1)) => match dec_board(b.skip(1 + k1)) {
                None => None,
                Some((bd, k2)) => match dec_moves(b.skip(1 + k1 + k2)) {
                    None => None,
                    Some((lm, k3)) => match dec_joever(b.skip(1 + k1 + k2 + k3)) {
                        None => None,
                        Some((j, k4)) => Some(
                            (
                                (ServerMessageView::HandshakeAck {
                                    features: f,
                                    board: bd,
                                    legal_moves: lm,
                                    result: j,
                                }),
                                1 + k1 + k2 + k3 + k4,
                            ),
                        ),
                    },
                },
            },
        }
    } else if b[0] == 1 {
        match dec_board(b.skip(1)) {
            None => None,
            Some((bd, k1)) => match dec_moves(b.skip(1 + k1)) {
                None => None,
                Some((lm, k2)) => match dec_joever(b.skip(1 + k1 + k2)) {
                    None => None,
                    Some((j, k3)) => match dec_move(b.skip(1 + k1 + k2 + k3)) {
                        None => None,
                        Some((m, k4)) => Some(
                            (
                                (ServerMessageView::State {
                                    board: bd,
                                    legal_moves: lm,
                                    result: j,
                                    move_applied: m,
                                }),
                                1 + k1 + k2 + k3 + k4,
                            ),
                        ),
                    },
                },
            },
        }
    } else if b[0] == 2 {
        match dec_board(b.skip(1)) {
            None => None,
            Some((bd, k1)) => match dec_moves(b.skip(1 + k1)) {
                None => None,
                Some((lm, k2)) => match dec_joever(b.skip(1 + k1 + k2)) {
                    None => None,
                    Some((j, k3)) => match dec_string(b.skip(1 + k1 + k2 + k3)) {
                        None => None,
                        Some((t, k4)) => Some(
                            (
                                (ServerMessageView::MoveRejected {
                                    board: bd,
                                    legal_moves: lm,
                                    result: j,
                                    reason: t,
                                }),
                                1 + k1 + k2 + k3 + k4,
                            ),
                        ),
                    },
                },
            },
        }
    } else if b[0] == 3 {
        match dec_board(b.skip(1)) {
            None => None,
            Some((bd, k1)) => match dec_moves(b.skip(1 + k1)) {
                None => None,
                Some((lm, k2)) => Some(
                    (
                        (ServerMessageView::DrawAccepted { board: bd, legal_moves: lm }),
                        1 + k1 + k2,
                    ),
                ),
            },
        }
    } else if b[0] == 4 {
        match dec_board(b.skip(1)) {
            None => None,
            Some((bd, k1)) => match dec_joever(b.skip(1 + k1)) {
                None => None,
                Some((j, k2)) => Some(
                    ((ServerMessageView::Resigned { board: bd, result: j }), 1 + k1 + k2),
                ),
            },
        }
    } else {
        None
    }
}

/// The machine bound on a server message: every list and text fits its
/// eight-byte length prefix.
pub open spec fn server_msg_fits(v: ServerMessageView) -> bool {
    match v {
        ServerMessageView::HandshakeAck { features, legal_moves, .. } => {
            features_fit(features) && legal_moves.len() < 0x1_0000_0000_0000_0000
        },
        ServerMessageView::State { legal_moves, .. } => legal_moves.len()
            < 0x1_0000_0000_0000_0000,
        ServerMessageView::MoveRejected { legal_moves, reason, .. } => {
            legal_moves.len() < 0x1_0000_0000_0000_0000 && vstd::utf8::encode_utf8(reason).len()
                < 0x1_0000_0000_0000_0000
        },
        ServerMessageView::DrawAccepted { legal_moves, .. } => legal_moves.len()
            < 0x1_0000_0000_0000_0000,
        ServerMessageView::Resigned { .. } => true,
    }
}

/// A single byte read back from the head of a stream.
proof fn lemma_peel_byte(t: u8, rest: Seq<u8>)
    ensures
        (seq![t] + rest).len() == 1 + rest.len(),
        (seq![t] + rest)[0] == t,
        (seq![t] + rest).skip(1) == rest,
{
    assert((seq![t] + rest).skip(1) =~= rest);
}

/// Codec round trip, client direction: decoding an encoded client
/// message from any stream position yields exactly that message and
/// consumes exactly its bytes, wherever the stream continues.
pub proof fn lemma_client_round_trip(m: ClientMessage, rest: Seq<u8>)
    requires
        m.wf(),
    ensures
        dec_client(enc_client(m) + rest) == Some((m, enc_client(m).len() as int)),
        (enc_client(m) + rest).skip(enc_client(m).len() as int) == rest,
{
    match m {
        ClientMessage::Handshake { chosen_color } => {
            let b = enc_client(m) + rest;
            assert(b =~= seq![0u8] + (seq![color_byte(chosen_color)] + rest));
            lemma_peel_byte(0u8, seq![color_byte(chosen_color)] + rest);
            assert(b.skip(1) == seq![color_byte(chosen_color)] + rest);
            lemma_peel_byte(color_byte(chosen_color), rest);
            assert(b.skip(enc_client(m).len() as int) =~= rest);
        },
        ClientMessage::SubmitMove(mv) => {
            let b = enc_client(m) + rest;
            assert(b =~= seq![1u8] + (enc_move(mv) + rest));
            lemma_peel_byte(1u8, enc_move(mv) + rest);
            lemma_dec_move(mv, rest);
            assert(b.skip(enc_client(m).len() as int) =~= rest);
        },
        ClientMessage::Resign => {
            lemma_peel_byte(2u8, rest);
            assert(enc_client(m) + rest =~= seq![2u8] + rest);
        },
        ClientMessage::OfferDraw => {
            lemma_peel_byte(3u8, rest);
            assert(enc_client(m) + rest =~= seq![3u8] + rest);
        },
    }
}

/// Round trip of the handshake acknowledgement.
#[verifier::spinoff_prover]
proof fn lemma_rt_ack(v: ServerMessageView, rest: Seq<u8>)
    requires
        v is HandshakeAck,
        v.wf_data(),
        server_msg_fits(v),
    ensures
        dec_server(enc_server(v) + rest) == Some((v, enc_server(v).len() as int)),
        (enc_server(v) + rest).skip(enc_server(v).len() as int) == rest,
{
    let (features, board, legal_moves, result) = (
        v->HandshakeAck_features,
        v->HandshakeAck_board,
        v->HandshakeAck_legal_moves,
        v->HandshakeAck_result,
    );
    let b = enc_server(v) + rest;
    let r4 = rest;
    let r3 = seq![joever_byte(result)] + r4;
    let r2 = enc_moves(legal_moves) + r3;
    let r1 = enc_board(board) + r2;
    let n1 = enc_features(features).len() as int;
    let n3 = enc_moves(legal_moves).len() as int;
    assert(b =~= seq![0u8] + (enc_features(features) + r1));
    assert(b[0] == 0 && b.skip(1) =~= enc_features(features) + r1);
    lemma_dec_features(features, r1);
    assert(b.skip(1int + n1) =~= r1);
    lemma_dec_board(board, r2);
    assert(b.skip(1int + n1 + 64) =~= r2);
    lemma_dec_moves(legal_moves, r3);
    assert(b.skip(1int + n1 + 64 + n3) =~= r3);
    assert(r3[0] == joever_byte(result));
    assert(byte_joever(joever_byte(result)) == result);
    assert(b.skip(1int + n1 + 64 + n3 + 1) =~= rest);
    assert(enc_server(v).len() as int == 1int + n1 + 64 + n3 + 1);
}

/// Round trip of a confirmed state.
#[verifier::spinoff_prover]
#[verifier::rlimit(100)]
proof fn lemma_rt_state(v: ServerMessageView, rest: Seq<u8>)
    requires
        v is State,
        v.wf_data(),
        server_msg_fits(v),
    ensures
        dec_server(enc_server(v) + rest) == Some((v, enc_server(v).len() as int)),
        (enc_server(v) + rest).skip(enc_server(v).len() as int) == rest,
{
    let (board, legal_moves, result, move_applied) = (
        v->State_board,
        v->State_legal_moves,
        v->State_result,
        v->State_move_applied,
    );
    let b = enc_server(v) + rest;
    let r4 = rest;
    let r3 = enc_move(move_applied) + r4;
    let r2 = seq![joever_byte(result)] + r3;
    let r1 = enc_moves(legal_moves) + r2;
    let n2 = enc_moves(legal_moves).len() as int;
    assert(b =~= seq![1u8] + (enc_board(board) + r1));
    assert(b[0] == 1 && b.skip(1) =~= enc_board(board) + r1);
    lemma_dec_board(board, r1);
    assert(b.skip(1int + 64) =~= r1);
    lemma_dec_moves(legal_moves, r2);
    assert(b.skip(1int + 64 + n2) =~= r2);
    assert(r2[0] == joever_byte(result));
    assert(byte_joever(joever_byte(result)) == result);
    assert(b.skip(1int + 64 + n2 + 1) =~= r3);
    lemma_dec_move(move_applied, r4);
    assert(b.skip(1int + 64 + n2 + 1 + 5) =~= rest);
    assert(enc_server(v).len() as int == 1int + 64 + n2 + 1 + 5);
}

/// Round trip of a rejection.
#[verifier::spinoff_prover]
#[verifier::rlimit(100)]
proof fn lemma_rt_rejected(v: ServerMessageView, rest: Seq<u8>)
    requires
        v is MoveRejected,
        v.wf_data(),
        server_msg_fits(v),
    ensures
        dec_server(enc_server(v) + rest) == Some((v, enc_server(v).len() as int)),
        (enc_server(v) + rest).skip(enc_server(v).len() as int) == rest,
{
    let (board, legal_moves, result, reason) = (
        v->MoveRejected_board,
        v->MoveRejected_legal_moves,
        v->MoveRejected_result,
        v->MoveRejected_reason,
    );
    let b = enc_server(v) + rest;
    let r4 = rest;
    let r3 = enc_string(reason) + r4;
    let r2 = seq![joever_byte(result)] + r3;
    let r1 = enc_moves(legal_moves) + r2;
    let n2 = enc_moves(legal_moves).len() as int;
    let n4 = enc_string(reason).len() as int;
    assert(b =~= seq![2u8] + (enc_board(board) + r1));
    assert(b[0] == 2 && b.skip(1) =~= enc_board(board) + r1);
    lemma_dec_board(board, r1);
    assert(b.skip(1int + 64) =~= r1);
    lemma_dec_moves(legal_moves, r2);
    assert(b.skip(1int + 64 + n2) =~= r2);
    assert(r2[0] == joever_byte(result));
    assert(byte_joever(joever_byte(result)) == result);
    assert(b.skip(1int + 64 + n2 + 1) =~= r3);
    lemma_dec_string(reason, r4);
    assert(b.skip(1int + 64 + n2 + 1 + n4) =~= rest);
    assert(enc_server(v).len() as int == 1int + 64 + n2 + 1 + n4);
}

/// Round trip of an accepted draw.
#[verifier::spinoff_prover]
proof fn lemma_rt_draw(v: ServerMessageView, rest: Seq<u8>)
    requires
        v is DrawAccepted,
        v.wf_data(),
        server_msg_fits(v),
    ensures
        dec_server(enc_server(v) + rest) == Some((v, enc_server(v).len() as int)),
        (enc_server(v) + rest).skip(enc_server(v).len() as int) == rest,
{
    let (board, legal_moves) = (v->DrawAccepted_board, v->DrawAccepted_legal_moves);
    let b = enc_server(v) + rest;
    let r2 = rest;
    let r1 = enc_moves(legal_moves) + r2;
    let n2 = enc_moves(legal_moves).len() as int;
    assert(b =~= seq![3u8] + (enc_board(board) + r1));
    assert(b[0] == 3 && b.skip(1) =~= enc_board(board) + r1);
    lemma_dec_board(board, r1);
    assert(b.skip(1int + 64) =~= r1);
    lemma_dec_moves(legal_moves, r2);
    assert(b.skip(1int + 64 + n2) =~= rest);
    assert(enc_server(v).len() as int == 1int + 64 + n2);
}

/// Round trip of a resignation.
#[verifier::spinoff_prover]
proof fn lemma_rt_resigned(v: ServerMessageView, rest: Seq<u8>)
    requires
        v is Resigned,
        v.wf_data(),
    ensures
        dec_server(enc_server(v) + rest) == Some((v, enc_server(v).len() as int)),
        (enc_server(v) + rest).skip(enc_server(v).len() as int) == rest,
{
    let (board, result) = (v->Resigned_board, v->Resigned_result);
    let b = enc_server(v) + rest;
    let r2 = rest;
    let r1 = seq![joever_byte(result)] + r2;
    assert(b =~= seq![4u8] + (enc_board(board) + r1));
    assert(b[0] == 4 && b.skip(1) =~= enc_board(board) + r1);
    lemma_dec_board(board, r1);
    assert(b.skip(1int + 64) =~= r1);
    assert(r1[0] == joever_byte(result));
    assert(byte_joever(joever_byte(result)) == result);
    assert(b.skip(1int + 64 + 1) =~= rest);
    assert(enc_server(v).len() as int == 1int + 64 + 1);
}

/// Codec round trip, server direction: decoding an encoded server
/// message from any stream position yields exactly that message and
/// consumes exactly its bytes, wherever the stream continues.
pub proof fn lemma_server_round_trip(v: ServerMessageView, rest: Seq<u8>)
    requires
        v.wf_data(),
        server_msg_fits(v),
    ensures
        dec_server(enc_server(v) + rest) == Some((v, enc_server(v).len() as int)),
        (enc_server(v) + rest).skip(enc_server(v).len() as int) == rest,
{
    match v {
        ServerMessageView::HandshakeAck { .. } => lemma_rt_ack(v, rest),
        ServerMessageView::State { .. } => lemma_rt_state(v, rest),
        ServerMessageView::MoveRejected { .. } => lemma_rt_rejected(v, rest),
        ServerMessageView::DrawAccepted { .. } => lemma_rt_draw(v, rest),
        ServerMessageView::Resigned { .. } => lemma_rt_resigned(v, rest),
    }
}


// ---------------------------------------------------------------------
// Executable encoders. Each appends one value's bytes to the output.
// ---------------------------------------------------------------------
/// The wire byte for a colour.
fn color_to_byte(c: &Color) -> (b: u8)
    ensures
        b == color_byte(*c),
{
    match c {
        Color::White => 0,
        Color::Black => 1,
    }
}

/// The wire byte for a square's occupant.
fn piece_to_byte(p: &Piece) -> (b: u8)
    ensures
        b == piece_byte(*p),
{
    match p {
        Piece::Empty => 0,
        Piece::WhitePawn => 1,
        Piece::WhiteKnight => 2,
        Piece::WhiteBishop => 3,
        Piece::WhiteRook => 4,
        Piece::WhiteQueen => 5,
        Piece::WhiteKing => 6,
        Piece::BlackPawn => 7,
        Piece::BlackKnight => 8,
        Piece::BlackBishop => 9,
        Piece::BlackRook => 10,
        Piece::BlackQueen => 11,
        Piece::BlackKing => 12,
    }
}

/// The occupant a wire byte names.
fn byte_to_piece(b: u8) -> (p: Piece)
    ensures
        p == byte_piece(b),
{
    if b == 0 {
        Piece::Empty
    } else if b == 1 {
        Piece::WhitePawn
    } else if b == 2 {
        Piece::WhiteKnight
    } else if b == 3 {
        Piece::WhiteBishop
    } else if b == 4 {
        Piece::WhiteRook
    } else if b == 5 {
        Piece::WhiteQueen
    } else if b == 6 {
        Piece::WhiteKing
    } else if b == 7 {
        Piece::BlackPawn
    } else if b == 8 {
        Piece::BlackKnight
    } else if b == 9 {
        Piece::BlackBishop
    } else if b == 10 {
        Piece::BlackRook
    } else if b == 11 {
        Piece::BlackQueen
    } else {
        Piece::BlackKing
    }
}

/// The wire byte for a game result.
fn joever_to_byte(j: &Joever) -> (b: u8)
    ensures
        b == joever_byte(*j),
{
    match j {
        Joever::Ongoing => 0,
        Joever::White => 1,
        Joever::Black => 2,
        Joever::Draw => 3,
        Joever::Indeterminate => 4,
    }
}

/// The game result a wire byte names.
fn byte_to_joever(b: u8) -> (j: Joever)
    ensures
        j == byte_joever(b),
{
    if b == 0 {
        Joever::Ongoing
    } else if b == 1 {
        Joever::White
    } else if b == 2 {
        Joever::Black
    } else if b == 3 {
        Joever::Draw
    } else {
        Joever::Indeterminate
    }
}

/// Appends an eight-byte length prefix.
fn push_len(out: &mut Vec<u8>, n: usize)
    ensures
        final(out)@ == old(out)@ + enc_len(n as nat),
{
    let bytes = u64_to_le_bytes(n as u64);
    let mut i: usize = 0;
    while i < bytes.len()
        invariant
            i <= bytes.len(),
            out@ == old(out)@ + bytes@.take(i as int),
        decreases bytes.len() - i,
    {
        out.push(bytes[i]);
        i = i + 1;
        proof {
            assert(out@ =~= old(out)@ + bytes@.take(i as int));
        }
    }
    proof {
        assert(old(out)@ + bytes@.take(bytes@.len() as int) =~= old(out)@ + enc_len(n as nat));
    }
}

/// Appends the five bytes of one move.
fn push_move(out: &mut Vec<u8>, m: &Move)
    requires
        m.wf(),
    ensures
        final(out)@ == old(out)@ + enc_move(*m),
{
    out.push(m.start_x as u8);
    out.push(m.start_y as u8);
    out.push(m.end_x as u8);
    out.push(m.end_y as u8);
    let pb = piece_to_byte(&m.promotion);
    out.push(pb);
    proof {
        assert(out@ =~= old(out)@ + enc_move(*m));
    }
}

/// Appends the 64 bytes of a board.
fn push_board(out: &mut Vec<u8>, b: &Board)
    requires
        b.wf(),
    ensures
        final(out)@ == old(out)@ + enc_board(b@),
{
    let mut i: usize = 0;
    while i < 64
        invariant
            i <= 64,
            b.wf(),
            out@ == old(out)@ + enc_board(b@).take(i as int),
        decreases 64 - i,
    {
        let p = b.square_index(i);
        let pb = piece_to_byte(&p);
        out.push(pb);
        i = i + 1;
        proof {
            assert(out@ =~= old(out)@ + enc_board(b@).take(i as int));
        }
    }
    proof {
        assert(old(out)@ + enc_board(b@).take(64) =~= old(out)@ + enc_board(b@));
    }
}

/// Splitting one more move off a list's encoding.
proof fn lemma_enc_move_list_push(s: Seq<Move>, m: Move)
    ensures
        enc_move_list(s.push(m)) == enc_move_list(s) + enc_move(m),
    decreases s.len(),
{
    let a = s.push(m);
    assert(a.len() == s.len() + 1);
    if s.len() == 0 {
        assert(a[0] == m);
        assert(a.skip(1) =~= Seq::<Move>::empty());
        assert(enc_move_list(a) == enc_move(m) + enc_move_list(Seq::<Move>::empty()));
        assert(enc_move_list(a) =~= enc_move_list(s) + enc_move(m));
    } else {
        assert(a[0] == s[0]);
        assert(a.skip(1) =~= s.skip(1).push(m));
        assert(enc_move_list(a) == enc_move(s[0]) + enc_move_list(s.skip(1).push(m)));
        lemma_enc_move_list_push(s.skip(1), m);
        assert(enc_move_list(s) == enc_move(s[0]) + enc_move_list(s.skip(1)));
        assert(enc_move_list(a) =~= enc_move_list(s) + enc_move(m));
    }
}

/// Appends a length-prefixed move list.
fn push_moves(out: &mut Vec<u8>, v: &Vec<Move>)
    requires
        crate::server::moves_wf(v@),
    ensures
        final(out)@ == old(out)@ + enc_moves(v@),
{
    push_len(out, v.len());
    let mut i: usize = 0;
    while i < v.len()
        invariant
            i <= v.len(),
            crate::server::moves_wf(v@),
            out@ == old(out)@ + enc_len(v@.len()) + enc_move_list(v@.take(i as int)),
        decreases v.len() - i,
    {
        let m = v[i];
        push_move(out, &m);
        i = i + 1;
        proof {
            lemma_enc_move_list_push(v@.take(i - 1), v@[i - 1]);
            assert(v@.take(i as int) =~= v@.take(i - 1).push(v@[i - 1]));
            assert(out@ =~= old(out)@ + enc_len(v@.len()) + enc_move_list(v@.take(i as int)));
        }
    }
    proof {
        assert(v@.take(v@.len() as int) =~= v@);
        assert(old(out)@ + enc_len(v@.len()) + enc_move_list(v@) =~= old(out)@ + enc_moves(v@));
    }
}

/// Appends length-prefixed UTF-8 text.
fn push_string(out: &mut Vec<u8>, s: &str)
    ensures
        final(out)@ == old(out)@ + enc_string(s@),
{
    let bytes = s.as_bytes_vec();
    push_len(out, bytes.len());
    let mut i: usize = 0;
    while i < bytes.len()
        invariant
            i <= bytes.len(),
            bytes@ == vstd::utf8::encode_utf8(s@),
            out@ == old(out)@ + enc_len(bytes@.len()) + bytes@.take(i as int),
        decreases bytes.len() - i,
    {
        out.push(bytes[i]);
        i = i + 1;
        proof {
            assert(out@ =~= old(out)@ + enc_len(bytes@.len()) + bytes@.take(i as int));
        }
    }
    proof {
        assert(old(out)@ + enc_len(bytes@.len()) + bytes@.take(bytes@.len() as int) =~= old(
            out,
        )@ + enc_string(s@));
    }
}

/// Appends one feature.
fn push_feature(out: &mut Vec<u8>, f: &Features)
    ensures
        final(out)@ == old(out)@ + enc_feature(f@),
{
    match f {
        Features::Castling => {
            out.push(0);
            proof {
                assert(out@ =~= old(out)@ + enc_feature(f@));
            }
        },
        Features::EnPassant => {
            out.push(1);
            proof {
                assert(out@ =~= old(out)@ + enc_feature(f@));
            }
        },
        Features::Promotion => {
            out.push(2);
            proof {
                assert(out@ =~= old(out)@ + enc_feature(f@));
            }
        },
        Features::PossibleMoveGeneration => {
            out.push(3);
            proof {
                assert(out@ =~= old(out)@ + enc_feature(f@));
            }
        },
        Features::Stalemate => {
            out.push(4);
            proof {
                assert(out@ =~= old(out)@ + enc_feature(f@));
            }
        },
        Features::Other(name) => {
            out.push(5);
            push_string(out, name.as_str());
            proof {
                assert(out@ =~= old(out)@ + enc_feature(f@));
            }
        },
    }
}

/// Splitting one more feature off a list's encoding.
proof fn lemma_enc_feature_list_push(s: Seq<FeaturesView>, f: FeaturesView)
    ensures
        enc_feature_list(s.push(f)) == enc_feature_list(s) + enc_feature(f),
    decreases s.len(),
{
    let a = s.push(f);
    assert(a.len() == s.len() + 1);
    if s.len() == 0 {
        assert(a[0] == f);
        assert(a.skip(1) =~= Seq::<FeaturesView>::empty());
        assert(enc_feature_list(a) == enc_feature(f) + enc_feature_list(
            Seq::<FeaturesView>::empty(),
        ));
        assert(enc_feature_list(a) =~= enc_feature_list(s) + enc_feature(f));
    } else {
        assert(a[0] == s[0]);
        assert(a.skip(1) =~= s.skip(1).push(f));
        assert(enc_feature_list(a) == enc_feature(s[0]) + enc_feature_list(s.skip(1).push(f)));
        lemma_enc_feature_list_push(s.skip(1), f);
        assert(enc_feature_list(s) == enc_feature(s[0]) + enc_feature_list(s.skip(1)));
        assert(enc_feature_list(a) =~= enc_feature_list(s) + enc_feature(f));
    }
}

/// Appends a length-prefixed feature list.
fn push_features(out: &mut Vec<u8>, v: &Vec<Features>)
    ensures
        final(out)@ == old(out)@ + enc_features(crate::messages::features_view(v@)),
{
    let ghost fv = crate::messages::features_view(v@);
    push_len(out, v.len());
    let mut i: usize = 0;
    while i < v.len()
        invariant
            i <= v.len(),
            fv == crate::messages::features_view(v@),
            fv.len() == v@.len(),
            out@ == old(out)@ + enc_len(v@.len()) + enc_feature_list(fv.take(i as int)),
        decreases v.len() - i,
    {
        push_feature(out, &v[i]);
        i = i + 1;
        proof {
            assert(v@[i - 1]@ == fv[i - 1]);
            lemma_enc_feature_list_push(fv.take(i - 1), fv[i - 1]);
            assert(fv.take(i as int) =~= fv.take(i - 1).push(fv[i - 1]));
            assert(out@ =~= old(out)@ + enc_len(v@.len()) + enc_feature_list(fv.take(i as int)));
        }
    }
    proof {
        assert(fv.take(fv.len() as int) =~= fv);
        assert(old(out)@ + enc_len(v@.len()) + enc_feature_list(fv) =~= old(out)@ + enc_features(
            fv,
        ));
    }
}

/// Encodes one client message as one self-delimiting unit.
pub fn encode_client(m: &ClientMessage) -> (r: Vec<u8>)
    requires
        m.wf(),
    ensures
        r@ == enc_client(*m),
{
    let mut out: Vec<u8> = Vec::new();
    match m {
        ClientMessage::Handshake { chosen_color } => {
            out.push(0);
            let cb = color_to_byte(chosen_color);
            out.push(cb);
        },
        ClientMessage::SubmitMove(mv) => {
            out.push(1);
            push_move(&mut out, mv);
        },
        ClientMessage::Resign => {
            out.push(2);
        },
        ClientMessage::OfferDraw => {
            out.push(3);
        },
    }
    proof {
        assert(out@ =~= enc_client(*m));
    }
    out
}

/// Encodes one server message as one self-delimiting unit.
pub fn encode_server(m: &ServerMessage) -> (r: Vec<u8>)
    requires
        m@.wf_data(),
    ensures
        r@ == enc_server(m@),
{
    let mut out: Vec<u8> = Vec::new();
    match m {
        ServerMessage::HandshakeAck { features, board, legal_moves, result } => {
            out.push(0);
            push_features(&mut out, features);
            push_board(&mut out, board);
            push_moves(&mut out, legal_moves);
            let jb = joever_to_byte(result);
            out.push(jb);
        },
        ServerMessage::State { board, legal_moves, result, move_applied } => {
            out.push(1);
            push_board(&mut out, board);
            push_moves(&mut out, legal_moves);
            let jb = joever_to_byte(result);
            out.push(jb);
            push_move(&mut out, move_applied);
        },
        ServerMessage::MoveRejected { board, legal_moves, result, reason } => {
            out.push(2);
            push_board(&mut out, board);
            push_moves(&mut out, legal_moves);
            let jb = joever_to_byte(result);
            out.push(jb);
            push_string(&mut out, reason.as_str());
        },
        ServerMessage::DrawAccepted { board, legal_moves } => {
            out.push(3);
            push_board(&mut out, board);
            push_moves(&mut out, legal_moves);
        },
        ServerMessage::Resigned { board, result } => {
            out.push(4);
            push_board(&mut out, board);
            let jb = joever_to_byte(result);
            out.push(jb);
        },
    }
    proof {
        assert(out@ =~= enc_server(m@));
    }
    out
}


// ---------------------------------------------------------------------
// Executable decoders. Each reads one value at `start` and returns it
// with the position just past it, exactly as the spec decoders say, or
// nothing when the bytes there do not begin with a well-formed value.
// ---------------------------------------------------------------------
/// Turns bytes back into the string they encode.
///
/// Relies on `String::from_utf8`: it accepts exactly the byte sequences
/// that are valid UTF-8 and returns the string whose characters those
/// bytes decode to, as `vstd`'s model of UTF-8 states it.
#[verifier::external_body]
fn bytes_to_string(v: Vec<u8>) -> (r: Option<String>)
    ensures
        match r {
            Some(s) => vstd::utf8::valid_utf8(v@) && s@ == vstd::utf8::decode_utf8(v@),
            None => !vstd::utf8::valid_utf8(v@),
        },
{
    match String::from_utf8(v) {
        Ok(s) => Some(s),
        Err(_) => None,
    }
}

/// Reads an eight-byte length prefix.
fn read_len(buf: &[u8], start: usize) -> (r: Option<(u64, usize)>)
    requires
        start <= buf@.len(),
    ensures
        match r {
            Some(v) => {
                &&& v.1 == start + 8
                &&& v.1 <= buf@.len()
                &&& dec_len(buf@.skip(start as int)) == Some((v.0, 8int))
            },
            None => dec_len(buf@.skip(start as int)) is None,
        },
{
    if buf.len() - start < 8 {
        return None;
    }
    let s8 = slice_subrange(buf, start, start + 8);
    let n = u64_from_le_bytes(s8);
    proof {
        assert(buf@.skip(start as int).take(8) =~= buf@.subrange(
            start as int,
            start as int + 8,
        ));
    }
    Some((n, start + 8))
}

/// Reads one move.
fn read_move(buf: &[u8], start: usize) -> (r: Option<(Move, usize)>)
    requires
        start <= buf@.len(),
    ensures
        match r {
            Some(v) => {
                &&& start <= v.1 <= buf@.len()
                &&& v.1 == start + 5
                &&& v.0.wf()
                &&& dec_move(buf@.skip(start as int)) == Some((v.0, 5int))
            },
            None => dec_move(buf@.skip(start as int)) is None,
        },
{
    if buf.len() - start < 5 {
        return None;
    }
    let b0 = buf[start];
    let b1 = buf[start + 1];
    let b2 = buf[start + 2];
    let b3 = buf[start + 3];
    let b4 = buf[start + 4];
    proof {
        let sfx = buf@.skip(start as int);
        assert(sfx[0] == b0 && sfx[1] == b1 && sfx[2] == b2 && sfx[3] == b3 && sfx[4] == b4);
    }
    if b0 < 8 && b1 < 8 && b2 < 8 && b3 < 8 && b4 <= 12 {
        let p = byte_to_piece(b4);
        Some(
            (
                Move {
                    start_x: b0 as usize,
                    start_y: b1 as usize,
                    end_x: b2 as usize,
                    end_y: b3 as usize,
                    promotion: p,
                },
                start + 5,
            ),
        )
    } else {
        None
    }
}

/// Reads one board of 64 squares.
fn read_board(buf: &[u8], start: usize) -> (r: Option<(Board, usize)>)
    requires
        start <= buf@.len(),
    ensures
        match r {
            Some(v) => {
                &&& v.1 == start + 64
                &&& v.1 <= buf@.len()
                &&& v.0.wf()
                &&& dec_board(buf@.skip(start as int)) == Some((v.0@, 64int))
            },
            None => dec_board(buf@.skip(start as int)) is None,
        },
{
    let blen = buf.len();
    if blen - start < 64 {
        return None;
    }
    let mut squares: Vec<Piece> = Vec::new();
    let mut i: usize = 0;
    while i < 64
        invariant
            start + 64 <= blen,
            blen == buf@.len(),
            i <= 64,
            forall|j: int| 0 <= j < i ==> buf@.skip(start as int)[j] <= 12,
            squares@ == Seq::new(i as nat, |j: int| byte_piece(buf@.skip(start as int)[j])),
        decreases 64 - i,
    {
        let b = buf[start + i];
        proof {
            assert(buf@.skip(start as int)[i as int] == b);
        }
        if b > 12 {
            proof {
                assert(!board_bytes_ok(buf@.skip(start as int)));
            }
            return None;
        }
        let p = byte_to_piece(b);
        squares.push(p);
        i = i + 1;
        proof {
            assert(squares@ =~= Seq::new(
                i as nat,
                |j: int| byte_piece(buf@.skip(start as int)[j]),
            ));
        }
    }
    proof {
        assert(board_bytes_ok(buf@.skip(start as int)));
    }
    Some((Board::from_squares(squares), start + 64))
}

/// Reads length-prefixed UTF-8 text.
fn read_string(buf: &[u8], start: usize) -> (r: Option<(String, usize)>)
    requires
        start <= buf@.len(),
    ensures
        match r {
            Some(v) => {
                &&& start <= v.1 <= buf@.len()
                &&& dec_string(buf@.skip(start as int)) == Some((v.0@, (v.1 - start) as int))
            },
            None => dec_string(buf@.skip(start as int)) is None,
        },
{
    let (n, p1) = match read_len(buf, start) {
        Some(v) => v,
        None => {
            return None;
        },
    };
    proof {
        assert(buf@.skip(start as int).skip(8) =~= buf@.skip(p1 as int));
    }
    let blen = buf.len();
    if n > (blen - p1) as u64 {
        return None;
    }
    let k = n as usize;
    let mut bytes: Vec<u8> = Vec::new();
    let mut i: usize = 0;
    while i < k
        invariant
            p1 + k <= blen,
            blen == buf@.len(),
            i <= k,
            bytes@ == buf@.subrange(p1 as int, p1 as int + i as int),
        decreases k - i,
    {
        bytes.push(buf[p1 + i]);
        i = i + 1;
        proof {
            assert(bytes@ =~= buf@.subrange(p1 as int, p1 as int + i as int));
        }
    }
    proof {
        assert(bytes@ =~= buf@.skip(p1 as int).take(k as int));
    }
    match bytes_to_string(bytes) {
        Some(s) => Some((s, p1 + k)),
        None => None,
    }
}

/// Reads one feature.
fn read_feature(buf: &[u8], start: usize) -> (r: Option<(Features, usize)>)
    requires
        start <= buf@.len(),
    ensures
        match r {
            Some(v) => {
                &&& start < v.1 <= buf@.len()
                &&& dec_feature(buf@.skip(start as int)) == Some((v.0@, (v.1 - start) as int))
            },
            None => dec_feature(buf@.skip(start as int)) is None,
        },
{
    if buf.len() - start < 1 {
        return None;
    }
    let t = buf[start];
    proof {
        assert(buf@.skip(start as int)[0] == t);
        assert(buf@.skip(start as int).skip(1) =~= buf@.skip(start as int + 1));
    }
    if t == 0 {
        Some((Features::Castling, start + 1))
    } else if t == 1 {
        Some((Features::EnPassant, start + 1))
    } else if t == 2 {
        Some((Features::Promotion, start + 1))
    } else if t == 3 {
        Some((Features::PossibleMoveGeneration, start + 1))
    } else if t == 4 {
        Some((Features::Stalemate, start + 1))
    } else if t == 5 {
        match read_string(buf, start + 1) {
            Some((s, end)) => Some((Features::Other(s), end)),
            None => None,
        }
    } else {
        None
    }
}

/// Reads a length-prefixed move list.
fn read_moves(buf: &[u8], start: usize) -> (r: Option<(Vec<Move>, usize)>)
    requires
        start <= buf@.len(),
    ensures
        match r {
            Some(v) => {
                &&& start <= v.1 <= buf@.len()
                &&& crate::messages::moves_wf(v.0@)
                &&& dec_moves(buf@.skip(start as int)) == Some((v.0@, (v.1 - start) as int))
            },
            None => dec_moves(buf@.skip(start as int)) is None,
        },
{
    let (n, p1) = match read_len(buf, start) {
        Some(v) => v,
        None => {
            return None;
        },
    };
    proof {
        assert(buf@.skip(start as int).skip(8) =~= buf@.skip(p1 as int));
    }
    let mut acc: Vec<Move> = Vec::new();
    let mut pos: usize = p1;
    let mut i: u64 = 0;
    while i < n
        invariant
            start <= p1 <= pos <= buf@.len(),
            dec_len(buf@.skip(start as int)) == Some((n, 8int)),
            p1 == start + 8,
            buf@.skip(start as int).skip(8) == buf@.skip(p1 as int),
            i <= n,
            pos as int == p1 as int + 5 * (i as int),
            acc@.len() == i,
            crate::messages::moves_wf(acc@),
            dec_move_list(buf@.skip(p1 as int), n as nat) == (match dec_move_list(
                buf@.skip(pos as int),
                (n - i) as nat,
            ) {
                Some(t) => Some(((acc@ + t.0), (pos - p1) as int + t.1)),
                None => None::<(Seq<Move>, int)>,
            }),
        decreases n - i,
    {
        match read_move(buf, pos) {
            None => {
                proof {
                    assert(dec_move_list(buf@.skip(pos as int), (n - i) as nat) is None);
                }
                return None;
            },
            Some((m, end)) => {
                proof {
                    assert(buf@.skip(pos as int).skip(5) =~= buf@.skip(pos as int + 5));
                    assert(dec_move_list(buf@.skip(pos as int), (n - i) as nat) == (
                    match dec_move_list(buf@.skip(pos as int + 5), (n - i - 1) as nat) {
                        Some(t) => Some(((seq![m] + t.0), 5 + t.1)),
                        None => None::<(Seq<Move>, int)>,
                    }));
                }
                acc.push(m);
                pos = end;
                i = i + 1;
                proof {
                    assert forall|t0: Seq<Move>| acc@ + t0 =~= acc@.take(acc@.len() - 1) + (
                    seq![m] + t0) by {
                        assert(acc@.take(acc@.len() - 1) + (seq![m] + t0) =~= acc@ + t0);
                    }
                }
            },
        }
    }
    proof {
        assert(dec_move_list(buf@.skip(pos as int), 0nat) == Some((Seq::<Move>::empty(), 0int)));
        assert(acc@ + Seq::<Move>::empty() =~= acc@);
    }
    Some((acc, pos))
}

/// Reads a length-prefixed feature list.
fn read_features(buf: &[u8], start: usize) -> (r: Option<(Vec<Features>, usize)>)
    requires
        start <= buf@.len(),
    ensures
        match r {
            Some(v) => {
                &&& start <= v.1 <= buf@.len()
                &&& dec_features(buf@.skip(start as int)) == Some(
                    (crate::messages::features_view(v.0@), (v.1 - start) as int),
                )
            },
            None => dec_features(buf@.skip(start as int)) is None,
        },
{
    let (n, p1) = match read_len(buf, start) {
        Some(v) => v,
        None => {
            return None;
        },
    };
    proof {
        assert(buf@.skip(start as int).skip(8) =~= buf@.skip(p1 as int));
    }
    let mut acc: Vec<Features> = Vec::new();
    let mut pos: usize = p1;
    let mut i: u64 = 0;
    while i < n
        invariant
            start <= p1 <= pos <= buf@.len(),
            dec_len(buf@.skip(start as int)) == Some((n, 8int)),
            p1 == start + 8,
            buf@.skip(start as int).skip(8) == buf@.skip(p1 as int),
            i <= n,
            i as int <= pos as int - p1 as int,
            acc@.len() == i,
            dec_feature_list(buf@.skip(p1 as int), n as nat) == (match dec_feature_list(
                buf@.skip(pos as int),
                (n - i) as nat,
            ) {
                Some(t) => Some(((crate::messages::features_view(acc@) + t.0), (pos - p1) as int
                    + t.1)),
                None => None::<(Seq<FeaturesView>, int)>,
            }),
        decreases n - i,
    {
        match read_feature(buf, pos) {
            None => {
                proof {
                    assert(dec_feature_list(buf@.skip(pos as int), (n - i) as nat) is None);
                }
                return None;
            },
            Some((f, end)) => {
                proof {
                    assert(buf@.skip(pos as int).skip((end - pos) as int) =~= buf@.skip(
                        end as int,
                    ));
                    assert(dec_feature_list(buf@.skip(pos as int), (n - i) as nat) == (
                    match dec_feature_list(buf@.skip(end as int), (n - i - 1) as nat) {
                        Some(t) => Some(((seq![f@] + t.0), (end - pos) as int + t.1)),
                        None => None::<(Seq<FeaturesView>, int)>,
                    }));
                }
                let ghost prev = crate::messages::features_view(acc@);
                acc.push(f);
                pos = end;
                i = i + 1;
                proof {
                    assert(crate::messages::features_view(acc@) =~= prev.push(f@));
                    assert forall|t0: Seq<FeaturesView>|
                        crate::messages::features_view(acc@) + t0 =~= prev + (seq![f@] + t0) by {
                        assert(crate::messages::features_view(acc@) + t0 =~= prev + (
                        seq![f@] + t0));
                    }
                }
            },
        }
    }
    proof {
        assert(dec_feature_list(buf@.skip(pos as int), 0nat) == Some(
            (Seq::<FeaturesView>::empty(), 0int),
        ));
        assert(crate::messages::features_view(acc@) + Seq::<FeaturesView>::empty()
            =~= crate::messages::features_view(acc@));
    }
    Some((acc, pos))
}

/// Decodes one client message at `start`: exactly the bytes of one unit
/// are consumed and the cursor lands on the next unit's first byte.
pub fn decode_client(buf: &[u8], start: usize) -> (r: Option<(ClientMessage, usize)>)
    requires
        start <= buf@.len(),
    ensures
        match r {
            Some(v) => {
                &&& start < v.1 <= buf@.len()
                &&& v.0.wf()
                &&& dec_client(buf@.skip(start as int)) == Some((v.0, (v.1 - start) as int))
            },
            None => dec_client(buf@.skip(start as int)) is None,
        },
{
    if buf.len() - start < 1 {
        return None;
    }
    let t = buf[start];
    proof {
        assert(buf@.skip(start as int)[0] == t);
        assert(buf@.skip(start as int).skip(1) =~= buf@.skip(start as int + 1));
    }
    if t == 0 {
        if buf.len() - start < 2 {
            return None;
        }
        let cb = buf[start + 1];
        proof {
            assert(buf@.skip(start as int + 1)[0] == cb);
        }
        if cb <= 1 {
            let c = if cb == 0 {
                Color::White
            } else {
                Color::Black
            };
            Some(((ClientMessage::Handshake { chosen_color: c }), start + 2))
        } else {
            None
        }
    } else if t == 1 {
        match read_move(buf, start + 1) {
            Some((m, end)) => Some((ClientMessage::SubmitMove(m), end)),
            None => None,
        }
    } else if t == 2 {
        Some((ClientMessage::Resign, start + 1))
    } else if t == 3 {
        Some((ClientMessage::OfferDraw, start + 1))
    } else {
        None
    }
}

/// Decodes one server message at `start`: exactly the bytes of one unit
/// are consumed and the cursor lands on the next unit's first byte.
#[verifier::spinoff_prover]
#[verifier::rlimit(100)]
pub fn decode_server(buf: &[u8], start: usize) -> (r: Option<(ServerMessage, usize)>)
    requires
        start <= buf@.len(),
    ensures
        match r {
            Some(v) => {
                &&& start < v.1 <= buf@.len()
                &&& v.0@.wf_data()
                &&& dec_server(buf@.skip(start as int)) == Some((v.0@, (v.1 - start) as int))
            },
            None => dec_server(buf@.skip(start as int)) is None,
        },
{
    if buf.len() - start < 1 {
        return None;
    }
    let ghost b = buf@.skip(start as int);
    let t = buf[start];
    proof {
        assert(b[0] == t);
        assert(b.skip(1) =~= buf@.skip(start as int + 1));
    }
    if t == 0 {
        let (features, p1) = match read_features(buf, start + 1) {
            Some(v) => v,
            None => {
                return None;
            },
        };
        proof {
            assert(b.skip(1 + (p1 - start - 1)) =~= buf@.skip(p1 as int));
        }
        let (board, p2) = match read_board(buf, p1) {
            Some(v) => v,
            None => {
                return None;
            },
        };
        proof {
            assert(b.skip(1 + (p1 - start - 1) + 64) =~= buf@.skip(p2 as int));
        }
        let (legal_moves, p3) = match read_moves(buf, p2) {
            Some(v) => v,
            None => {
                return None;
            },
        };
        proof {
            assert(b.skip(1 + (p1 - start - 1) + 64 + (p3 - p2)) =~= buf@.skip(p3 as int));
        }
        if buf.len() - p3 < 1 {
            return None;
        }
        let jb = buf[p3];
        proof {
            assert(buf@.skip(p3 as int)[0] == jb);
        }
        if jb > 4 {
            return None;
        }
        let result = byte_to_joever(jb);
        Some(
            (
                ServerMessage::HandshakeAck { features, board, legal_moves, result },
                p3 + 1,
            ),
        )
    } else if t == 1 {
        let (board, p1) = match read_board(buf, start + 1) {
            Some(v) => v,
            None => {
                return None;
            },
        };
        proof {
            assert(b.skip(1int + 64) =~= buf@.skip(p1 as int));
        }
        let (legal_moves, p2) = match read_moves(buf, p1) {
            Some(v) => v,
            None => {
                return None;
            },
        };
        proof {
            assert(b.skip(1 + 64 + (p2 - p1)) =~= buf@.skip(p2 as int));
        }
        if buf.len() - p2 < 1 {
            return None;
        }
        let jb = buf[p2];
        proof {
            assert(buf@.skip(p2 as int)[0] == jb);
        }
        if jb > 4 {
            return None;
        }
        let result = byte_to_joever(jb);
        proof {
            assert(b.skip(1 + 64 + (p2 - p1) + 1) =~= buf@.skip(p2 as int + 1));
        }
        let (move_applied, p3) = match read_move(buf, p2 + 1) {
            Some(v) => v,
            None => {
                return None;
            },
        };
        Some((ServerMessage::State { board, legal_moves, result, move_applied }, p3))
    } else if t == 2 {
        let (board, p1) = match read_board(buf, start + 1) {
            Some(v) => v,
            None => {
                return None;
            },
        };
        proof {
            assert(b.skip(1int + 64) =~= buf@.skip(p1 as int));
        }
        let (legal_moves, p2) = match read_moves(buf, p1) {
            Some(v) => v,
            None => {
                return None;
            },
        };
        proof {
            assert(b.skip(1 + 64 + (p2 - p1)) =~= buf@.skip(p2 as int));
        }
        if buf.len() - p2 < 1 {
            return None;
        }
        let jb = buf[p2];
        proof {
            assert(buf@.skip(p2 as int)[0] == jb);
        }
        if jb > 4 {
            return None;
        }
        let result = byte_to_joever(jb);
        proof {
            assert(b.skip(1 + 64 + (p2 - p1) + 1) =~= buf@.skip(p2 as int + 1));
        }
        let (reason, p3) = match read_string(buf, p2 + 1) {
            Some(v) => v,
            None => {
                return None;
            },
        };
        Some((ServerMessage::MoveRejected { board, legal_moves, result, reason }, p3))
    } else if t == 3 {
        let (board, p1) = match read_board(buf, start + 1) {
            Some(v) => v,
            None => {
                return None;
            },
        };
        proof {
            assert(b.skip(1int + 64) =~= buf@.skip(p1 as int));
        }
        let (legal_moves, p2) = match read_moves(buf, p1) {
            Some(v) => v,
            None => {
                return None;
            },
        };
        Some((ServerMessage::DrawAccepted { board, legal_moves }, p2))
    } else if t == 4 {
        let (board, p1) = match read_board(buf, start + 1) {
            Some(v) => v,
            None => {
                return None;
            },
        };
        proof {
            assert(b.skip(1int + 64) =~= buf@.skip(p1 as int));
        }
        if buf.len() - p1 < 1 {
            return None;
        }
        let jb = buf[p1];
        proof {
            assert(buf@.skip(p1 as int)[0] == jb);
        }
        if jb > 4 {
            return None;
        }
        let result = byte_to_joever(jb);
        Some((ServerMessage::Resigned { board, result }, p1 + 1))
    } else {
        None
    }
}

} // verus!
