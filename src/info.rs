use vstd::prelude::*;
use crate::clock::{elapsed_ms, now};
use crate::history::{History, CAPTURE_SIZE, MAIN_SIZE};
use crate::moves::ChessMove;
use crate::score::MAX_PLY;

verus! {

/// Slots of the triangular principal variation table, `MAX_PLY` rows of `MAX_PLY`.
pub const PV_SIZE: usize = 16384;

/// What one root search keeps while it runs.
pub struct SearchInfo {
    pub nodes: u64,
    pub sel_depth: usize,
    pub ply: usize,
    /// Row `p` holds, from column `p` on, the best line found from ply `p`.
    pub pv: Vec<Option<ChessMove>>,
    /// Where row `p` of `pv` ends.
    pub pv_length: Vec<usize>,
    pub killers: Vec<Option<ChessMove>>,
    /// The best line of the last completed iteration, by ply, tried first at each ply.
    pub prev_pv: Vec<Option<ChessMove>>,
    pub history: History,
    pub terminated: bool,
    pub start: std::time::Instant,
}

/// Where column `col` of row `row` of the principal variation table lies.
pub open spec fn pv_slot(row: int, col: int) -> int {
    row * MAX_PLY + col
}

pub open spec fn moves_wf(s: Seq<Option<ChessMove>>) -> bool {
    forall|i: int| 0 <= i < s.len() && (#[trigger] s[i]) is Some ==> s[i]->0.wf()
}

impl SearchInfo {
    pub open spec fn wf(&self) -> bool {
        &&& self.pv@.len() == PV_SIZE
        &&& self.pv_length@.len() == MAX_PLY + 1
        &&& forall|i: int| 0 <= i <= MAX_PLY ==> #[trigger] self.pv_length@[i] <= MAX_PLY
        &&& self.killers@.len() == MAX_PLY
        &&& self.prev_pv@.len() == MAX_PLY
        &&& moves_wf(self.prev_pv@)
        &&& moves_wf(self.pv@)
        &&& moves_wf(self.killers@)
        &&& self.history.wf()
        &&& self.ply < MAX_PLY
    }

    pub fn new() -> (r: SearchInfo)
        ensures
            r.wf(),
            r.nodes == 0,
            r.ply == 0,
            r.sel_depth == 0,
            !r.terminated,
            forall|i: int| 0 <= i < PV_SIZE ==> r.pv@[i] is None,
            forall|i: int| 0 <= i <= MAX_PLY ==> r.pv_length@[i] == 0,
            forall|i: int| 0 <= i < MAX_PLY ==> r.killers@[i] is None,
            forall|i: int| 0 <= i < MAX_PLY ==> r.prev_pv@[i] is None,
            forall|i: int| 0 <= i < MAIN_SIZE ==> r.history.main@[i] == 0,
            forall|i: int| 0 <= i < CAPTURE_SIZE ==> r.history.capture@[i] == 0,
    {
        let mut pv: Vec<Option<ChessMove>> = Vec::new();
        let mut i: usize = 0;
        while i < PV_SIZE
            invariant
                i <= PV_SIZE,
                pv@.len() == i,
                forall|k: int| 0 <= k < i ==> pv@[k] is None,
            decreases PV_SIZE - i,
        {
            pv.push(None);
            i = i + 1;
        }
        let mut pv_length: Vec<usize> = Vec::new();
        let mut i: usize = 0;
        while i <= MAX_PLY
            invariant
                i <= MAX_PLY + 1,
                pv_length@.len() == i,
                forall|k: int| 0 <= k < i ==> pv_length@[k] == 0,
            decreases MAX_PLY + 1 - i,
        {
            pv_length.push(0);
            i = i + 1;
        }
        let mut killers: Vec<Option<ChessMove>> = Vec::new();
        let mut i: usize = 0;
        while i < MAX_PLY
            invariant
                i <= MAX_PLY,
                killers@.len() == i,
                forall|k: int| 0 <= k < i ==> killers@[k] is None,
            decreases MAX_PLY - i,
        {
            killers.push(None);
            i = i + 1;
        }
        let mut prev_pv: Vec<Option<ChessMove>> = Vec::new();
        let mut i: usize = 0;
        while i < MAX_PLY
            invariant
                i <= MAX_PLY,
                prev_pv@.len() == i,
                forall|k: int| 0 <= k < i ==> prev_pv@[k] is None,
            decreases MAX_PLY - i,
        {
            prev_pv.push(None);
            i = i + 1;
        }
        SearchInfo {
            nodes: 0,
            sel_depth: 0,
            ply: 0,
            pv,
            pv_length,
            killers,
            prev_pv,
            history: History::new(),
            terminated: false,
            start: now(),
        }
    }

    /// Milliseconds since the search began.
    pub fn elapsed(&self) -> u128 {
        elapsed_ms(&self.start)
    }

    /// The best line from the root, as the table holds it now: the moves of
    /// row 0 up to its length, stopping at the first empty slot.
    pub fn root_pv(&self) -> (r: Vec<ChessMove>)
        requires
            self.wf(),
        ensures
            r@.len() <= self.pv_length@[0],
            forall|i: int| 0 <= i < r@.len() ==> self.pv@[i] == Some(#[trigger] r@[i]),
            r@.len() < self.pv_length@[0] ==> self.pv@[r@.len() as int] is None,
            forall|i: int| 0 <= i < r@.len() ==> (#[trigger] r@[i]).wf(),
    {
        let mut line: Vec<ChessMove> = Vec::new();
        let n = self.pv_length[0];
        let mut i: usize = 0;
        while i < n
            invariant
                self.wf(),
                n <= MAX_PLY,
                n == self.pv_length@[0],
                i <= n,
                line@.len() == i,
                forall|k: int| 0 <= k < line@.len() ==> self.pv@[k] == Some(#[trigger] line@[k]),
                forall|k: int| 0 <= k < line@.len() ==> (#[trigger] line@[k]).wf(),
            ensures
                line@.len() == n || self.pv@[line@.len() as int] is None,
                line@.len() <= n,
                forall|k: int| 0 <= k < line@.len() ==> self.pv@[k] == Some(#[trigger] line@[k]),
                forall|k: int| 0 <= k < line@.len() ==> (#[trigger] line@[k]).wf(),
            decreases n - i,
        {
            match self.pv[i] {
                Some(m) => line.push(m),
                None => {
                    break;
                },
            }
            i = i + 1;
        }
        line
    }
}

} // verus!
