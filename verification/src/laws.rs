use vstd::prelude::*;

use crate::client::ClientSessionView;
use crate::server::{ServerPhase, ServerSessionView, Wait};
use crate::types::{Color, Joever, Move, Piece};

verus! {

/// One successfully applied move as the server reports it: the move, the
/// engine's board and legal moves after it, and the result after it.
pub struct AppliedMove {
    pub m: Move,
    pub board: Seq<Piece>,
    pub legal_moves: Seq<Move>,
    pub result: Joever,
}

/// The server session after one applied move (the submission followed by
/// the engine's acceptance).
pub open spec fn server_step(s: ServerSessionView, st: AppliedMove) -> ServerSessionView {
    s.after_accept(st.m, st.board, st.legal_moves, st.result)
}

/// The server session after a sequence of applied moves.
pub open spec fn server_run(s: ServerSessionView, steps: Seq<AppliedMove>) -> ServerSessionView
    decreases steps.len(),
{
    if steps.len() == 0 {
        s
    } else {
        server_run(server_step(s, steps[0]), steps.skip(1))
    }
}

/// The client session after mirroring one confirmed `State` message.
pub open spec fn client_step(c: ClientSessionView, st: AppliedMove) -> ClientSessionView {
    c.after_state(st.m, st.board, st.legal_moves, st.result)
}

/// The client session after mirroring a sequence of confirmed states.
pub open spec fn client_run(c: ClientSessionView, steps: Seq<AppliedMove>) -> ClientSessionView
    decreases steps.len(),
{
    if steps.len() == 0 {
        c
    } else {
        client_run(client_step(c, steps[0]), steps.skip(1))
    }
}

/// Server and client agree on everything both hold: the board, the side
/// to move, the legal moves and the result.
pub open spec fn in_step(s: ServerSessionView, c: ClientSessionView) -> bool {
    &&& s.board == c.board
    &&& s.turn == c.turn
    &&& s.legal_moves == c.legal_moves
    &&& s.last_move == c.last_move
    &&& s.result == c.result
}

/// Submitting a move leaves everything but the control phase alone, so an
/// applied move reaches the same state whether or not the submission is
/// spelled out first.
pub proof fn lemma_submit_then_accept(s: ServerSessionView, m: Move, st: AppliedMove)
    ensures
        server_step(s.submitting_local(m), st) == server_step(s, st),
        server_step(s.submitting_remote(m), st) == server_step(s, st),
{
    assert(server_step(s.submitting_local(m), st) =~= server_step(s, st));
    assert(server_step(s.submitting_remote(m), st) =~= server_step(s, st));
}

/// Turn alternation: after any sequence of applied moves the side to move
/// has flipped once per move, so from White's opening move the side to
/// move is White exactly after an even number of moves.
pub proof fn lemma_turn_alternation(s: ServerSessionView, steps: Seq<AppliedMove>)
    requires
        s.turn == Color::White,
    ensures
        server_run(s, steps).turn == (if steps.len() % 2 == 0 {
            Color::White
        } else {
            Color::Black
        }),
    decreases steps.len(),
{
    lemma_turn_flips(s, steps);
}

/// The general form of turn alternation, from either colour.
pub proof fn lemma_turn_flips(s: ServerSessionView, steps: Seq<AppliedMove>)
    ensures
        server_run(s, steps).turn == (if steps.len() % 2 == 0 {
            s.turn
        } else {
            s.turn.opposite()
        }),
    decreases steps.len(),
{
    if steps.len() > 0 {
        lemma_turn_flips(server_step(s, steps[0]), steps.skip(1));
    }
}

/// Illegal-move idempotence, session side: a rejected submission leaves
/// the board, the side to move, the legal moves and the result exactly as
/// they were, and the same move submitted again then lands in the same
/// state as if the rejected attempt had never happened.
pub proof fn lemma_reject_leaves_no_trace(
    s: ServerSessionView,
    bad: Move,
    m: Move,
    st: AppliedMove,
)
    requires
        s.phase is AwaitingMoves,
    ensures
        s.submitting_remote(bad).after_reject().board == s.board,
        s.submitting_remote(bad).after_reject().turn == s.turn,
        s.submitting_remote(bad).after_reject().result == s.result,
        s.submitting_remote(bad).after_reject() == s,
        server_step(s.submitting_remote(bad).after_reject().submitting_remote(m), st)
            == server_step(s.submitting_remote(m), st),
{
    assert(s.submitting_remote(bad).after_reject() =~= s);
    lemma_submit_then_accept(s.submitting_remote(bad).after_reject(), m, st);
    lemma_submit_then_accept(s, m, st);
}

/// Mirror fidelity: a client that starts in step with the server and
/// replays exactly the server's confirmed states stays in step after any
/// sequence of applied moves — field for field on the board — without
/// ever validating a move itself. In particular every `State` snapshot
/// the two sides publish along the way agrees on board, turn and result.
pub proof fn lemma_mirror_fidelity(
    s: ServerSessionView,
    c: ClientSessionView,
    steps: Seq<AppliedMove>,
)
    requires
        in_step(s, c),
    ensures
        in_step(server_run(s, steps), client_run(c, steps)),
        server_run(s, steps).board == client_run(c, steps).board,
        forall|mo: Option<Move>| #[trigger] server_run(s, steps).state_event(mo) == client_run(
            c,
            steps,
        ).state_event(mo),
    decreases steps.len(),
{
    if steps.len() > 0 {
        lemma_mirror_fidelity(server_step(s, steps[0]), client_step(c, steps[0]), steps.skip(1));
    }
}

/// Terminal detection: once the session's result has moved away from
/// `Ongoing`, a well-formed server session waits for nothing — its turn
/// loop is over, and by the contracts of `on_remote_message` and
/// `on_local_command` every further submission is refused with the
/// session unchanged and the engine never consulted.
pub proof fn lemma_terminal_waits_nothing(s: ServerSessionView)
    requires
        s.wf(),
        s.result != Joever::Ongoing,
    ensures
        s.phase is Over,
        s.spec_wait() == Wait::Finished,
{
}

} // verus!
