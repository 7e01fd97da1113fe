use nnue_search::command::{parse_command, parse_number, step, Command, WorkerState};
use nnue_search::history::{apply_bonus, bonus, History, MAX_HISTORY};
use nnue_search::moves::{ChessMove, Piece};
use nnue_search::ordering::sort_by_keys;
use nnue_search::score::{from_table, mate_in, mated_in, to_table, MATE, MATE_BOUND};
use nnue_search::tt::{Bound, TranspositionTable};

#[test]
fn mate_scores() {
    assert_eq!(mate_in(3), MATE - 3);
    assert_eq!(mated_in(4), -MATE + 4);
    assert!(mate_in(128) >= MATE_BOUND);
}

#[test]
fn table_score_round_trip() {
    for s in [-MATE + 2, -MATE_BOUND, -500, 0, 37, MATE_BOUND, MATE - 1] {
        for ply in [0usize, 1, 7, 100] {
            assert_eq!(from_table(to_table(s, ply), ply), s);
        }
    }
}

#[test]
fn mate_transport_between_plies() {
    // A mate 5 plies from the root found at ply 3, read back at ply 1.
    let stored = to_table(mate_in(5), 3);
    assert_eq!(stored, MATE - 2);
    assert_eq!(from_table(stored, 1), mate_in(5 + 1 - 3));
    assert_eq!(from_table(to_table(mated_in(6), 2), 4), mated_in(6 + 4 - 2));
    assert_eq!(from_table(to_table(mate_in(9), 4), 4), mate_in(9));
}

#[test]
fn exact_write_then_read_permits_cutoff() {
    let mut tt = TranspositionTable::new(1);
    let mv = ChessMove::Normal { role: Piece::Pawn, from: 12, capture: None, to: 28, promotion: None };
    tt.write(0xDEAD_BEEF, 6, 123, Bound::Exact, Some(mv), 3);
    let e = tt.read(0xDEAD_BEEF, 3).unwrap();
    assert_eq!(e.score, 123);
    assert_eq!(e.m, Some(mv));
    assert!(e.valid_cutoff(100, 200, 6));
    assert!(e.valid_cutoff(123, 123, 1));
    assert!(!e.valid_cutoff(100, 200, 7));
    let cap = tt.entries.len() as u64;
    assert!(tt.read(0xDEAD_BEEF + cap, 3).is_none());
    tt.clear();
    assert!(tt.read(0xDEAD_BEEF, 3).is_none());
}

#[test]
fn bounds_permit_cutoff_only_on_their_side() {
    let mut tt = TranspositionTable::new(0);
    assert_eq!(tt.entries.len(), 1);
    tt.write(5, 4, 300, Bound::Beta, None, 0);
    let e = tt.read(5, 0).unwrap();
    assert!(e.valid_cutoff(0, 250, 4));
    assert!(!e.valid_cutoff(0, 350, 4));
    tt.write(5, 4, -300, Bound::Alpha, None, 0);
    let e = tt.read(5, 0).unwrap();
    assert!(e.valid_cutoff(-250, 0, 4));
    assert!(!e.valid_cutoff(-350, 0, 4));
}

#[test]
fn mate_score_stored_relative_to_node() {
    let mut tt = TranspositionTable::new(1);
    tt.write(77, 3, mate_in(6), Bound::Exact, None, 2);
    assert_eq!(tt.entries[77 % tt.entries.len()].unwrap().score, MATE - 4);
    assert_eq!(tt.read(77, 0).unwrap().score, mate_in(4));
}

#[test]
fn gravity_values() {
    assert_eq!(bonus(3), 9);
    assert_eq!(bonus(100), 1200);
    assert_eq!(apply_bonus(0, 100), 100);
    assert_eq!(apply_bonus(MAX_HISTORY, 1200), MAX_HISTORY);
    assert_eq!(apply_bonus(8192, 1000), 8192 + 1000 - 500);
    assert_eq!(apply_bonus(-8192, -1000), -8192 - 1000 + 500);
    assert_eq!(apply_bonus(-MAX_HISTORY, -MAX_HISTORY), -MAX_HISTORY);
}

#[test]
fn history_stays_bounded() {
    let mut h = History::new();
    let a = ChessMove::Normal { role: Piece::Knight, from: 6, capture: None, to: 21, promotion: None };
    let b = ChessMove::Normal { role: Piece::Pawn, from: 12, capture: None, to: 28, promotion: None };
    let c = ChessMove::Normal { role: Piece::Queen, from: 3, capture: Some(Piece::Rook), to: 59, promotion: None };
    for i in 0..500 {
        if i % 3 == 0 {
            h.update_main(true, &b, &vec![a], 40);
        } else {
            h.update_main(true, &a, &vec![b], 40);
        }
        h.update_capture(&c, &vec![], 40);
    }
    for v in h.main.iter().chain(h.capture.iter()) {
        assert!(v.abs() <= MAX_HISTORY);
    }
    assert!(h.get_main(true, &a) > 0);
    assert!(h.get_capture(&c) > 0);
    assert_eq!(h.get_main(false, &a), 0);
}

#[test]
fn sort_is_stable_and_descending() {
    let mk = |to: u8| ChessMove::Normal { role: Piece::Pawn, from: 8, capture: None, to, promotion: None };
    let moves = vec![mk(16), mk(17), mk(18), mk(19), mk(20)];
    let keys = vec![5, 9, 5, -3, 9];
    let sorted = sort_by_keys(&moves, &keys);
    assert_eq!(sorted, vec![mk(17), mk(20), mk(16), mk(18), mk(19)]);
}

#[test]
fn commands_are_read() {
    assert_eq!(parse_command("go", None), Command::Go);
    assert_eq!(parse_command("stop", None), Command::Stop);
    assert_eq!(parse_command("quit", None), Command::Quit);
    assert_eq!(parse_command("movetime 1500", Some("1500")), Command::MoveTime(1500));
    assert_eq!(parse_command("movetime x", Some("x")), Command::Other);
    assert_eq!(parse_command("go ", Some("")), Command::Other);
    assert_eq!(parse_number("+42"), Some(42));
    assert_eq!(parse_number("340282366920938463463374607431768211455"), Some(u128::MAX));
    assert_eq!(parse_number("340282366920938463463374607431768211456"), None);
    assert_eq!(parse_number(""), None);
    let s = WorkerState { halt: true, quit: false, search_time: 10 };
    let (s, run) = step(s, Command::MoveTime(250));
    assert!(!run);
    assert_eq!(s.search_time, 250);
    let (s, run) = step(s, Command::Go);
    assert!(run);
    assert!(s.halt);
    let (s, run) = step(s, Command::Quit);
    assert!(!run && s.quit);
}
