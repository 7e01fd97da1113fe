//! A negamax alpha-beta chess searcher: score arithmetic, a transposition
//! table, history and killer heuristics, static exchange evaluation, move
//! ordering, quiescence and the iterative deepening driver.

pub mod score;
pub mod moves;
pub mod tt;
pub mod history;
pub mod chess;
pub mod see;
pub mod ordering;
pub mod board;
pub mod params;
pub mod clock;
pub mod info;
pub mod search;
pub mod command;
