use nnue_search::search::out_of_time;
use nnue_search::board::Board;
use nnue_search::info::SearchInfo;
use nnue_search::params::{Parameters, SearchParams};
use nnue_search::score::{mated_in, DRAW, INFINITY, MATE_BOUND};
use nnue_search::search::{uci_score, Search, SearchRefs, UciScore};
use nnue_search::tt::TranspositionTable;

fn refs_for(board: Board, depth: i32) -> SearchRefs {
    SearchRefs {
        board,
        params: Parameters::default(),
        search_params: SearchParams { depth, search_time: 600_000 },
        search_info: SearchInfo::new(),
        tt: TranspositionTable::new(4),
        tt_enabled: true,
    }
}

#[test]
fn mate_in_one_found() {
    let board = Board::new("6k1/5ppp/8/8/8/8/5PPP/R6K w - -").unwrap();
    let mut refs = refs_for(board, 3);
    let outcome = Search::iterative_deepening(&mut refs);
    let mv = outcome.best_move.unwrap();
    assert_eq!(refs.board.to_uci(&mv), "a1a8");
    let last = outcome.reports.last().unwrap();
    assert!(last.score >= MATE_BOUND);
    assert_eq!(uci_score(last.score), UciScore::Mate(1));
}

#[test]
fn stalemate_is_a_draw_with_no_move() {
    let board = Board::new("7k/5Q2/6K1/8/8/8/8/8 b - - 0 1").unwrap();
    assert!(!board.in_check());
    assert!(board.legal_moves().is_empty());
    let mut refs = refs_for(board, 3);
    assert_eq!(Search::alpha_beta(&mut refs, 3, -INFINITY, INFINITY), DRAW);
    let outcome = Search::iterative_deepening(&mut refs);
    assert!(outcome.best_move.is_none());
}

#[test]
fn checkmated_side_scores_mated() {
    let board = Board::new("R5k1/5ppp/8/8/8/8/5PPP/7K b - - 0 1").unwrap();
    let mut refs = refs_for(board, 2);
    assert_eq!(Search::alpha_beta(&mut refs, 2, -INFINITY, INFINITY), mated_in(0));
}

#[test]
fn threefold_repetition_scores_draw_below_root() {
    let mut board = Board::starting_position();
    for m in ["g1f3", "g8f6", "f3g1", "f6g8", "g1f3", "g8f6", "f3g1", "f6g8"] {
        board.play_uci(m);
    }
    assert_eq!(board.history.len(), 8);
    assert!(board.three_fold());
    board.set_ply(1);
    for depth in [1, 2, 5] {
        let mut refs = refs_for(board.clone(), depth);
        refs.search_info.ply = 1;
        assert_eq!(Search::alpha_beta(&mut refs, depth, -INFINITY, INFINITY), DRAW);
    }
}

#[test]
fn play_uci_ignores_illegal_moves() {
    let mut board = Board::starting_position();
    let before = board.get_hash();
    board.play_uci("e2e5");
    assert_eq!(board.get_hash(), before);
    assert_eq!(board.history.len(), 0);
    board.play_uci("e2e4");
    assert_ne!(board.get_hash(), before);
    assert_eq!(board.history.len(), 1);
}

#[test]
fn make_and_undo_restore_the_hash() {
    let mut board = Board::starting_position();
    let before = board.get_hash();
    let moves = board.legal_moves();
    assert_eq!(moves.len(), 20);
    for m in &moves {
        board.make_move(m, false);
        assert_ne!(board.get_hash(), before);
        board.undo_move();
        assert_eq!(board.get_hash(), before);
    }
    assert!(!board.is_last_move_null());
    board.make_null_move();
    assert!(board.is_last_move_null());
    board.undo_null_move();
    assert_eq!(board.get_hash(), before);
    assert_eq!(board.ply(), 0);
}

#[test]
fn search_leaves_the_board_as_found() {
    let board = Board::new("r1bqkbnr/pppp1ppp/2n5/4p3/4P3/5N2/PPPP1PPP/RNBQKB1R w KQkq - 2 3").unwrap();
    let before = board.get_hash();
    let mut refs = refs_for(board, 4);
    let _ = Search::iterative_deepening(&mut refs);
    assert_eq!(refs.board.get_hash(), before);
    assert_eq!(refs.board.ply(), 0);
    assert_eq!(refs.search_info.ply, 0);
}

#[test]
fn principal_variation_is_legal() {
    let board = Board::new("r1bqkbnr/pppp1ppp/2n5/4p3/4P3/5N2/PPPP1PPP/RNBQKB1R w KQkq - 2 3").unwrap();
    let mut refs = refs_for(board.clone(), 4);
    let outcome = Search::iterative_deepening(&mut refs);
    for report in &outcome.reports {
        let mut b = board.clone();
        assert!(!report.pv.is_empty());
        assert!(report.pv.len() <= report.depth as usize);
        for m in &report.pv {
            assert!(b.legal_moves().contains(m));
            b.make_move(m, true);
        }
    }
}

#[test]
fn aspiration_matches_full_window() {
    for fen in [
        "r1bqkbnr/pppp1ppp/2n5/4p3/4P3/5N2/PPPP1PPP/RNBQKB1R w KQkq - 2 3",
        "6k1/5ppp/8/8/8/8/5PPP/R6K w - -",
    ] {
        let board = Board::new(fen).unwrap();
        let mut full = refs_for(board.clone(), 5);
        full.tt_enabled = false;
        let f = Search::alpha_beta(&mut full, 5, -INFINITY, INFINITY);
        let mut narrow = refs_for(board, 5);
        narrow.tt_enabled = false;
        let a = Search::aspiration(&mut narrow, 5, f + 300);
        assert_eq!(a, f);
    }
}

fn unpruned(board: Board) -> SearchRefs {
    let mut refs = refs_for(board, 3);
    refs.tt_enabled = false;
    refs.params = Parameters {
        iir_depth: 512,
        rfp_depth: 0,
        rfp_margin: 0,
        razoring_depth: 0,
        razoring_margin: 0,
        razoring_fixed_margin: 0,
        fp_depth: 0,
        fp_margin: 0,
        fp_fixed_margin: 0,
        see_depth: 0,
        see_quiet_margin: 0,
        see_noisy_margin: 0,
        lmr_moves_played: 1000,
        lmr_depth: 512,
    };
    refs
}

fn negamax(refs: &mut SearchRefs, depth: i32) -> i32 {
    let ply = refs.search_info.ply;
    if ply > 0 && refs.board.three_fold() {
        return DRAW;
    }
    let in_check = refs.board.in_check();
    if depth <= 0 && !in_check {
        return Search::qsearch(refs, -INFINITY, INFINITY);
    }
    let depth = depth.max(0) + if in_check { 1 } else { 0 };
    let moves = refs.board.legal_moves();
    if moves.is_empty() {
        return if in_check { mated_in(ply) } else { DRAW };
    }
    let mut best = -INFINITY;
    for m in &moves {
        refs.board.make_move(m, false);
        refs.search_info.ply += 1;
        let s = -negamax(refs, depth - 1);
        refs.board.undo_move();
        refs.search_info.ply -= 1;
        best = best.max(s);
    }
    best
}

#[test]
fn alpha_beta_agrees_with_negamax() {
    for fen in [
        "r1bqkbnr/pppp1ppp/2n5/4p3/4P3/5N2/PPPP1PPP/RNBQKB1R w KQkq - 2 3",
        "6k1/5ppp/8/8/8/8/5PPP/R6K w - -",
        "4k3/8/8/3q4/8/4N3/8/4K2R w K - 0 1",
    ] {
        for depth in 1..=3 {
            let board = Board::new(fen).unwrap();
            let mut a = unpruned(board.clone());
            let mut b = unpruned(board);
            assert_eq!(Search::alpha_beta(&mut a, depth, -INFINITY, INFINITY), negamax(&mut b, depth), "{fen} {depth}");
        }
    }
}

#[test]
fn uci_score_forms() {
    assert_eq!(uci_score(35), UciScore::Cp(35));
    assert_eq!(uci_score(-MATE_BOUND + 1), UciScore::Cp(-MATE_BOUND + 1));
    assert_eq!(uci_score(nnue_search::score::mate_in(3)), UciScore::Mate(2));
    assert_eq!(uci_score(mated_in(2)), UciScore::Mate(-1));
}

#[test]
fn evaluation_counts_material_for_side_to_move() {
    let board = Board::starting_position();
    assert_eq!(board.evaluate(), 0);
    let board = Board::new("4k3/8/8/8/8/8/8/R3K3 w - - 0 1").unwrap();
    assert_eq!(board.evaluate(), 500);
    let board = Board::new("4k3/8/8/8/8/8/8/R3K3 b - - 0 1").unwrap();
    assert_eq!(board.evaluate(), -500);
}

#[test]
fn bad_fen_is_rejected() {
    assert_eq!(Board::new("not a fen").err(), Some(nnue_search::chess::FenError::Syntax));
    assert_eq!(
        Board::new("8/8/8/8/8/8/8/8 w - - 0 1").err(),
        Some(nnue_search::chess::FenError::IllegalPosition)
    );
}

#[test]
fn null_move_passes_the_turn() {
    let mut board = Board::starting_position();
    assert!(board.turn());
    board.make_null_move();
    assert!(!board.turn());
    board.undo_null_move();
    assert!(board.turn());
}

#[test]
fn find_uci_finds_only_legal_moves() {
    let board = Board::starting_position();
    let m = board.find_uci("g1f3").unwrap();
    assert_eq!(board.to_uci(&m), "g1f3");
    assert!(board.find_uci("g1g3").is_none());
}

#[test]
fn starting_position_matches_its_fen() {
    let a = Board::starting_position();
    let b = Board::new("rnbqkbnr/pppppppp/8/8/8/8/PPPPPPPP/RNBQKBNR w KQkq - 0 1").unwrap();
    assert_eq!(a.pos, b.pos);
    assert_eq!(a.get_hash(), b.get_hash());
    assert!(!a.has_non_pawn_material() == false);
}

#[test]
fn capture_moves_are_the_legal_captures() {
    let board = Board::new("1k1r3q/1ppn3p/p4b2/4p3/8/P2N2P1/1PP1R1BP/2K1Q3 w - - 0 1").unwrap();
    let legal = board.legal_moves();
    let caps = board.capture_moves();
    assert!(!caps.is_empty());
    for m in &caps {
        assert!(m.is_capture());
        assert!(legal.contains(m));
    }
    assert_eq!(caps.len(), legal.iter().filter(|m| m.is_capture()).count());
}

#[test]
fn clock_is_read_every_few_nodes() {
    assert!(out_of_time(4096, 11, 10));
    assert!(!out_of_time(4097, 11, 10));
    assert!(!out_of_time(4096, 10, 10));
}
