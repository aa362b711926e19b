use chess_sync::board::Board;
use chess_sync::engine::{StubEngine, UniversalGame};
use chess_sync::types::{
    cord_to_file, oposite_color, piece_color, win_for, x_colored, y_colored, your_color,
    your_turn, Color, Joever, Move, Piece,
};

#[test]
fn starting_position_has_the_usual_layout() {
    let b = Board::starting();
    assert_eq!(b.at(0, 0), Piece::WhiteRook);
    assert_eq!(b.at(1, 0), Piece::WhiteKnight);
    assert_eq!(b.at(2, 0), Piece::WhiteBishop);
    assert_eq!(b.at(3, 0), Piece::WhiteQueen);
    assert_eq!(b.at(4, 0), Piece::WhiteKing);
    assert_eq!(b.at(7, 0), Piece::WhiteRook);
    for x in 0..8 {
        assert_eq!(b.at(x, 1), Piece::WhitePawn);
        assert_eq!(b.at(x, 6), Piece::BlackPawn);
        for y in 2..6 {
            assert_eq!(b.at(x, y), Piece::Empty);
        }
    }
    assert_eq!(b.at(3, 7), Piece::BlackQueen);
    assert_eq!(b.at(4, 7), Piece::BlackKing);
}

#[test]
fn setting_a_square_changes_only_that_square() {
    let mut b = Board::starting();
    b.set_at(4, 3, Piece::WhitePawn);
    b.set_at(4, 1, Piece::Empty);
    assert_eq!(b.at(4, 3), Piece::WhitePawn);
    assert_eq!(b.at(4, 1), Piece::Empty);
    assert_eq!(b.at(3, 1), Piece::WhitePawn);
}

#[test]
fn colors_and_results() {
    assert_eq!(oposite_color(&Color::White), Color::Black);
    assert_eq!(oposite_color(&Color::Black), Color::White);
    assert_eq!(win_for(&Color::White), Joever::White);
    assert_eq!(win_for(&Color::Black), Joever::Black);
}

#[test]
fn piece_colors() {
    assert_eq!(piece_color(&Piece::WhiteQueen), Some(Color::White));
    assert_eq!(piece_color(&Piece::BlackPawn), Some(Color::Black));
    assert_eq!(piece_color(&Piece::Empty), None);
}

#[test]
fn whose_turn_it_is_on_each_peer() {
    // the server's own turn
    assert!(your_turn(&Color::White, &Color::White, true));
    assert!(!your_turn(&Color::Black, &Color::White, true));
    // the client plays the colour the server does not
    assert!(your_turn(&Color::Black, &Color::White, false));
    assert!(!your_turn(&Color::White, &Color::White, false));
}

#[test]
fn the_local_colour_on_each_peer() {
    assert_eq!(your_color(&Color::White, true), Color::White);
    assert_eq!(your_color(&Color::White, false), Color::Black);
    assert_eq!(your_color(&Color::Black, false), Color::White);
}

#[test]
fn screen_coordinates_flip_per_role_and_colour() {
    // a White server sees its own home rank at the bottom of the screen
    assert_eq!(y_colored(true, &Color::White, 0), 7);
    assert_eq!(y_colored(true, &Color::White, 7), 0);
    assert_eq!(y_colored(false, &Color::White, 2), 2);
    assert_eq!(y_colored(true, &Color::Black, 3), 3);
    assert_eq!(x_colored(true, &Color::White, 5), 5);
    assert_eq!(x_colored(false, &Color::White, 5), 2);
    assert_eq!(x_colored(true, &Color::Black, 0), 7);
    // out-of-range input is clamped onto the board
    assert_eq!(y_colored(false, &Color::White, 9), 7);
    assert_eq!(x_colored(true, &Color::White, 100), 7);
}

#[test]
fn file_names() {
    let names = ["a", "b", "c", "d", "e", "f", "g", "h"];
    for x in 0..8 {
        assert_eq!(cord_to_file(x), names[x]);
    }
}

#[test]
fn stub_engine_moves_a_piece_and_flips_the_turn() {
    let mut g = StubEngine::new();
    assert_eq!(g.turn(), Color::White);
    assert_eq!(g.joever(), Joever::Ongoing);
    let r = g.try_move(Move {
        start_x: 4,
        start_y: 1,
        end_x: 4,
        end_y: 3,
        promotion: Piece::Empty,
    });
    assert!(r.is_ok());
    assert_eq!(g.turn(), Color::Black);
    let b = g.board();
    assert_eq!(b.at(4, 3), Piece::WhitePawn);
    assert_eq!(b.at(4, 1), Piece::Empty);
}

#[test]
fn stub_engine_refusals_name_their_reason() {
    let mut g = StubEngine::new();
    let stay = g.try_move(Move {
        start_x: 4,
        start_y: 1,
        end_x: 4,
        end_y: 1,
        promotion: Piece::Empty,
    });
    assert_eq!(stay.unwrap_err(), "the move goes nowhere");
    let empty_start = g.try_move(Move {
        start_x: 4,
        start_y: 3,
        end_x: 4,
        end_y: 4,
        promotion: Piece::Empty,
    });
    assert_eq!(
        empty_start.unwrap_err(),
        "no piece of the moving side on the start square"
    );
    let own_target = g.try_move(Move {
        start_x: 0,
        start_y: 0,
        end_x: 0,
        end_y: 1,
        promotion: Piece::Empty,
    });
    assert_eq!(
        own_target.unwrap_err(),
        "the end square holds the moving side's own piece"
    );
    // nothing changed along the way
    assert_eq!(g.turn(), Color::White);
    assert_eq!(g.board(), Board::starting());
}

#[test]
fn stub_engine_king_capture_wins() {
    let mut g = StubEngine::new();
    // the stub checks colours only, so the queen may jump across the board
    let r = g.try_move(Move {
        start_x: 3,
        start_y: 0,
        end_x: 4,
        end_y: 7,
        promotion: Piece::Empty,
    });
    assert!(r.is_ok());
    assert_eq!(g.joever(), Joever::White);
}
