use nnue_search::board::Board;
use nnue_search::moves::{ChessMove, Piece};
use nnue_search::see::{least_valuable_attacker, move_value, see};

fn position_and_move(fen: &str, uci: &str) -> (Board, ChessMove) {
    let board = Board::new(fen).unwrap();
    let mv = board.find_uci(uci).unwrap();
    (board, mv)
}

#[test]
fn test_see1() {
    let (board, mv) = position_and_move("1k1r3q/1ppn3p/p4b2/4p3/8/P2N2P1/1PP1R1BP/2K1Q3 w - - ", "d3e5");
    assert_eq!(see(&board.state(), &mv, -300), Some(true));
}

#[test]
fn test_see2() {
    let (board, mv) = position_and_move("1k1r4/1pp4p/p7/4p3/8/P5P1/1PP4P/2K1R3 w - - ", "e1e5");
    // Nothing recaptures on e5, so the exchange nets exactly the threshold.
    assert_eq!(see(&board.state(), &mv, 100), Some(true));
}

#[test]
fn see_rook_takes_undefended_pawn() {
    let (board, mv) = position_and_move("1k1r4/1pp4p/p7/4p3/8/P5P1/1PP4P/2K1R3 w - - ", "e1e5");
    // Nothing recaptures on e5: the rook wins exactly the pawn.
    assert_eq!(see(&board.state(), &mv, 0), Some(true));
    assert_eq!(see(&board.state(), &mv, 100), Some(true));
    assert_eq!(see(&board.state(), &mv, 101), Some(false));
}

#[test]
fn see_threshold_is_monotone() {
    let (board, mv) = position_and_move("1k1r3q/1ppn3p/p4b2/4p3/8/P2N2P1/1PP1R1BP/2K1Q3 w - - ", "d3e5");
    let p = board.state();
    let mut seen_false = false;
    let mut last_true = i32::MIN;
    let mut t = -1500;
    while t <= 1500 {
        let r = see(&p, &mv, t).unwrap();
        if r {
            assert!(!seen_false, "true again above a threshold that failed");
            last_true = t;
        } else {
            seen_false = true;
        }
        t += 1;
    }
    assert!(seen_false);
    assert!(last_true >= move_value(&mv) - 400);
    assert!(last_true <= move_value(&mv));
}

#[test]
fn see_special_moves_count_as_winning() {
    let board = Board::starting_position();
    let put = ChessMove::Put { role: Piece::Knight, to: 20 };
    assert_eq!(see(&board.state(), &put, 10_000), Some(true));
    let castle = ChessMove::Castle { king: 4, rook: 7 };
    assert_eq!(see(&board.state(), &castle, 10_000), Some(true));
}

#[test]
fn see_quiet_move_with_positive_threshold_fails() {
    let (board, mv) = position_and_move("rnbqkbnr/pppppppp/8/8/8/8/PPPPPPPP/RNBQKBNR w KQkq - 0 1", "e2e4");
    assert_eq!(see(&board.state(), &mv, 1), Some(false));
    assert_eq!(see(&board.state(), &mv, 0), Some(true));
}

#[test]
fn least_valuable_attacker_prefers_pawn() {
    let board = Board::starting_position();
    let p = board.state();
    // Squares b2 (pawn) and c1 (bishop) and d1 (queen).
    let attackers = (1u64 << 9) | (1u64 << 2) | (1u64 << 3);
    assert_eq!(least_valuable_attacker(&p, attackers), Some(Piece::Pawn));
    assert_eq!(least_valuable_attacker(&p, (1u64 << 2) | (1u64 << 3)), Some(Piece::Bishop));
    assert_eq!(least_valuable_attacker(&p, 1u64 << 30), None);
}

#[test]
fn attacks_to_finds_knight_and_pawn_defenders() {
    let board = Board::starting_position();
    let p = board.state();
    let occupied = p.white | p.black;
    // f3 (square 21) is covered by the g1 knight and the e2 and g2 pawns.
    let a = p.attacks_to(21, true, occupied);
    assert_eq!(a, (1u64 << 6) | (1u64 << 12) | (1u64 << 14));
    assert_eq!(p.attacks_to(21, false, occupied), 0);
}

#[test]
fn move_value_of_captures() {
    let ep = ChessMove::EnPassant { from: 36, to: 43 };
    assert_eq!(move_value(&ep), 100);
    let quiet = ChessMove::Normal { role: Piece::Knight, from: 6, capture: None, to: 21, promotion: None };
    assert_eq!(move_value(&quiet), 0);
    let takes_rook = ChessMove::Normal { role: Piece::Bishop, from: 6, capture: Some(Piece::Rook), to: 21, promotion: None };
    assert_eq!(move_value(&takes_rook), 650);
}
