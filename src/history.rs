use vstd::prelude::*;
use crate::moves::ChessMove;

verus! {

/// Magnitude no history value ever exceeds.
pub const MAX_HISTORY: i32 = 16384;

/// Largest bonus one cutoff gives.
pub const HISTORY_CAP: i32 = 1200;

/// Deepest search a cutoff may report to the tables.
pub const MAX_HISTORY_DEPTH: i32 = 1000;

/// Slots of the quiet table: side to move, origin, destination.
pub const MAIN_SIZE: usize = 8192;

/// Slots of the capture table: moving piece, destination, captured piece.
pub const CAPTURE_SIZE: usize = 2304;

pub open spec fn abs_spec(x: int) -> int {
    if x < 0 {
        -x
    } else {
        x
    }
}

/// A history value after a bonus: the bonus is damped as the value nears the
/// limit (the product is divided with the fraction dropped, toward zero).
pub open spec fn gravity(h: int, b: int) -> int {
    let p = abs_spec(h) * abs_spec(b) / (MAX_HISTORY as int);
    h + b - (if h < 0 {
        -p
    } else {
        p
    })
}

/// The bonus a cutoff at `depth` gives.
pub open spec fn bonus_spec(depth: int) -> int {
    if depth * depth < HISTORY_CAP {
        depth * depth
    } else {
        HISTORY_CAP as int
    }
}

/// A history value stays within the limit whatever bonus within the limit it gets.
pub proof fn lemma_gravity_bounded(h: int, b: int)
    requires
        abs_spec(h) <= MAX_HISTORY,
        abs_spec(b) <= MAX_HISTORY,
    ensures
        abs_spec(gravity(h, b)) <= MAX_HISTORY,
{
    let m = MAX_HISTORY as int;
    let a = abs_spec(h);
    let c = abs_spec(b);
    let p = a * c / m;
    assert(p * m <= a * c < (p + 1) * m) by (nonlinear_arith)
        requires
            p == a * c / m,
            m > 0,
            a >= 0,
            c >= 0,
    ;
    assert(p <= a) by (nonlinear_arith)
        requires
            p * m <= a * c,
            c <= m,
            m > 0,
            a >= 0,
            c >= 0,
    ;
    assert(p >= a + c - m) by (nonlinear_arith)
        requires
            a * c < (p + 1) * m,
            (m - a) * (m - c) >= 0,
            m > 0,
    ;
}

pub open spec fn bounded(s: Seq<i32>) -> bool {
    forall|i: int| 0 <= i < s.len() ==> abs_spec(#[trigger] s[i] as int) <= MAX_HISTORY
}

/// Quiet-move history and capture history.
pub struct History {
    pub main: Vec<i32>,
    pub capture: Vec<i32>,
}

/// Slot of a quiet move in the main table; a drop has none.
pub open spec fn main_index_spec(white: bool, m: ChessMove) -> Option<int> {
    match m.from_spec() {
        Some(from) => Some(
            (if white {
                0int
            } else {
                4096int
            }) + (from as int) * 64 + (m.to_spec() as int),
        ),
        None => None,
    }
}

/// Slot of a capture in the capture table; a move that takes nothing has none.
pub open spec fn capture_index_spec(m: ChessMove) -> Option<int> {
    match m.captured_spec() {
        Some(c) => Some(
            (m.role_spec().index_spec() as int) * 384 + (m.to_spec() as int) * 6 + (
            c.index_spec() as int),
        ),
        None => None,
    }
}

/// The quiet table after a bonus `b` to the slot of `m`.
pub open spec fn bump_main_spec(main: Seq<i32>, white: bool, m: ChessMove, b: int) -> Seq<i32> {
    match main_index_spec(white, m) {
        Some(i) => main.update(i, gravity(main[i] as int, b) as i32),
        None => main,
    }
}

/// The capture table after a bonus `b` to the slot of `m`.
pub open spec fn bump_capture_spec(capture: Seq<i32>, m: ChessMove, b: int) -> Seq<i32> {
    match capture_index_spec(m) {
        Some(i) => capture.update(i, gravity(capture[i] as int, b) as i32),
        None => capture,
    }
}

/// The quiet table after a penalty `b` to each of `moves`, in order.
pub open spec fn penalise_main(main: Seq<i32>, white: bool, moves: Seq<ChessMove>, b: int) -> Seq<
    i32,
>
    decreases moves.len(),
{
    if moves.len() == 0 {
        main
    } else {
        bump_main_spec(penalise_main(main, white, moves.drop_last(), b), white, moves.last(), -b)
    }
}

/// The capture table after a penalty `b` to each of `moves`, in order.
pub open spec fn penalise_capture(capture: Seq<i32>, moves: Seq<ChessMove>, b: int) -> Seq<i32>
    decreases moves.len(),
{
    if moves.len() == 0 {
        capture
    } else {
        bump_capture_spec(penalise_capture(capture, moves.drop_last(), b), moves.last(), -b)
    }
}

pub fn main_index(white: bool, m: &ChessMove) -> (r: Option<usize>)
    requires
        m.wf(),
    ensures
        r matches Some(i) ==> i < MAIN_SIZE,
        r.is_some() == main_index_spec(white, *m).is_some(),
        r matches Some(i) ==> i == main_index_spec(white, *m)->0,
{
    match m.from_square() {
        Some(from) => {
            let side: usize = if white {
                0
            } else {
                4096
            };
            Some(side + (from as usize) * 64 + (m.to_square() as usize))
        },
        None => None,
    }
}

pub fn capture_index(m: &ChessMove) -> (r: Option<usize>)
    requires
        m.wf(),
    ensures
        r matches Some(i) ==> i < CAPTURE_SIZE,
        r.is_some() == capture_index_spec(*m).is_some(),
        r matches Some(i) ==> i == capture_index_spec(*m)->0,
{
    match m.captured() {
        Some(c) => Some(m.role().index() * 384 + (m.to_square() as usize) * 6 + c.index()),
        None => None,
    }
}

/// The bonus a cutoff at `depth` gives: the depth squared, capped.
pub fn bonus(depth: i32) -> (r: i32)
    requires
        0 <= depth <= MAX_HISTORY_DEPTH,
    ensures
        r == bonus_spec(depth as int),
        0 <= r <= HISTORY_CAP,
{
    assert(depth * depth <= 1000000) by (nonlinear_arith)
        requires
            0 <= depth <= 1000,
    ;
    let sq = depth * depth;
    if sq < HISTORY_CAP {
        assert(sq >= 0) by (nonlinear_arith)
            requires
                sq == depth * depth,
        ;
        sq
    } else {
        HISTORY_CAP
    }
}

/// Applies a bonus to one history value.
pub fn apply_bonus(h: i32, b: i32) -> (r: i32)
    requires
        abs_spec(h as int) <= MAX_HISTORY,
        abs_spec(b as int) <= MAX_HISTORY,
    ensures
        r == gravity(h as int, b as int),
        abs_spec(r as int) <= MAX_HISTORY,
{
    proof {
        lemma_gravity_bounded(h as int, b as int);
    }
    let a: i32 = if h < 0 {
        -h
    } else {
        h
    };
    let c: i32 = if b < 0 {
        -b
    } else {
        b
    };
    assert(a * c <= MAX_HISTORY * MAX_HISTORY) by (nonlinear_arith)
        requires
            0 <= a <= MAX_HISTORY,
            0 <= c <= MAX_HISTORY,
    ;
    assert(a * c >= 0) by (nonlinear_arith)
        requires
            0 <= a,
            0 <= c,
    ;
    let p: i32 = ((a as i64) * (c as i64) / (MAX_HISTORY as i64)) as i32;
    assert(p <= MAX_HISTORY) by (nonlinear_arith)
        requires
            p == (a * c) / (MAX_HISTORY as int),
            a * c <= MAX_HISTORY * MAX_HISTORY,
    ;
    if h < 0 {
        h + b + p
    } else {
        h + b - p
    }
}

impl History {
    /// Both tables have their sizes and every value is within the limit.
    pub open spec fn wf(&self) -> bool {
        &&& self.main@.len() == MAIN_SIZE
        &&& self.capture@.len() == CAPTURE_SIZE
        &&& bounded(self.main@)
        &&& bounded(self.capture@)
    }

    /// Empty tables.
    pub fn new() -> (r: Self)
        ensures
            r.wf(),
            forall|i: int| 0 <= i < MAIN_SIZE ==> r.main@[i] == 0,
            forall|i: int| 0 <= i < CAPTURE_SIZE ==> r.capture@[i] == 0,
    {
        let mut main: Vec<i32> = Vec::new();
        let mut i: usize = 0;
        while i < MAIN_SIZE
            invariant
                i <= MAIN_SIZE,
                main@.len() == i,
                forall|j: int| 0 <= j < i ==> main@[j] == 0,
            decreases MAIN_SIZE - i,
        {
            main.push(0);
            i = i + 1;
        }
        let mut capture: Vec<i32> = Vec::new();
        let mut i: usize = 0;
        while i < CAPTURE_SIZE
            invariant
                i <= CAPTURE_SIZE,
                capture@.len() == i,
                forall|j: int| 0 <= j < i ==> capture@[j] == 0,
            decreases CAPTURE_SIZE - i,
        {
            capture.push(0);
            i = i + 1;
        }
        History { main, capture }
    }

    /// Quiet history of a move for the given side; zero for a drop.
    pub fn get_main(&self, white: bool, m: &ChessMove) -> (r: i32)
        requires
            self.wf(),
            m.wf(),
        ensures
            r == (match main_index_spec(white, *m) {
                Some(i) => self.main@[i] as int,
                None => 0,
            }),
            abs_spec(r as int) <= MAX_HISTORY,
    {
        match main_index(white, m) {
            Some(i) => self.main[i],
            None => 0,
        }
    }

    /// Capture history of a move; zero for a move that takes nothing.
    pub fn get_capture(&self, m: &ChessMove) -> (r: i32)
        requires
            self.wf(),
            m.wf(),
        ensures
            r == (match capture_index_spec(*m) {
                Some(i) => self.capture@[i] as int,
                None => 0,
            }),
            abs_spec(r as int) <= MAX_HISTORY,
    {
        match capture_index(m) {
            Some(i) => self.capture[i],
            None => 0,
        }
    }

    /// Gives a bonus to the quiet slot of `m`.
    pub fn bump_main(&mut self, white: bool, m: &ChessMove, b: i32)
        requires
            old(self).wf(),
            m.wf(),
            abs_spec(b as int) <= MAX_HISTORY,
        ensures
            final(self).wf(),
            final(self).capture@ == old(self).capture@,
            final(self).main@ == bump_main_spec(old(self).main@, white, *m, b as int),
    {
        match main_index(white, m) {
            Some(i) => {
                let v = apply_bonus(self.main[i], b);
                self.main.set(i, v);
            },
            None => {},
        }
    }

    /// Gives a bonus to the capture slot of `m`.
    pub fn bump_capture(&mut self, m: &ChessMove, b: i32)
        requires
            old(self).wf(),
            m.wf(),
            abs_spec(b as int) <= MAX_HISTORY,
        ensures
            final(self).wf(),
            final(self).main@ == old(self).main@,
            final(self).capture@ == bump_capture_spec(old(self).capture@, *m, b as int),
    {
        match capture_index(m) {
            Some(i) => {
                let v = apply_bonus(self.capture[i], b);
                self.capture.set(i, v);
            },
            None => {},
        }
    }

    /// After a cutoff by the quiet move `best`: rewards it and penalises the
    /// quiet moves tried before it.
    pub fn update_main(&mut self, white: bool, best: &ChessMove, quiets: &Vec<ChessMove>, depth: i32)
        requires
            old(self).wf(),
            best.wf(),
            forall|i: int| 0 <= i < quiets@.len() ==> (#[trigger] quiets@[i]).wf(),
            0 <= depth <= MAX_HISTORY_DEPTH,
        ensures
            final(self).wf(),
            final(self).capture@ == old(self).capture@,
            final(self).main@ == penalise_main(
                bump_main_spec(old(self).main@, white, *best, bonus_spec(depth as int)),
                white,
                quiets@,
                bonus_spec(depth as int),
            ),
    {
        let b = bonus(depth);
        self.bump_main(white, best, b);
        let ghost start = self.main@;
        let mut i: usize = 0;
        while i < quiets.len()
            invariant
                self.wf(),
                self.capture@ == old(self).capture@,
                0 <= b <= HISTORY_CAP,
                b == bonus_spec(depth as int),
                start == bump_main_spec(old(self).main@, white, *best, b as int),
                i <= quiets@.len(),
                self.main@ == penalise_main(start, white, quiets@.subrange(0, i as int), b as int),
                forall|k: int| 0 <= k < quiets@.len() ==> (#[trigger] quiets@[k]).wf(),
            decreases quiets.len() - i,
        {
            self.bump_main(white, &quiets[i], -b);
            proof {
                assert(quiets@.subrange(0, i + 1).drop_last() =~= quiets@.subrange(0, i as int));
            }
            i = i + 1;
        }
        proof {
            assert(quiets@.subrange(0, i as int) =~= quiets@);
        }
    }

    /// After a cutoff by the capture `best`: rewards it and penalises the
    /// captures tried before it.
    pub fn update_capture(&mut self, best: &ChessMove, captures: &Vec<ChessMove>, depth: i32)
        requires
            old(self).wf(),
            best.wf(),
            forall|i: int| 0 <= i < captures@.len() ==> (#[trigger] captures@[i]).wf(),
            0 <= depth <= MAX_HISTORY_DEPTH,
        ensures
            final(self).wf(),
            final(self).main@ == old(self).main@,
            final(self).capture@ == penalise_capture(
                bump_capture_spec(old(self).capture@, *best, bonus_spec(depth as int)),
                captures@,
                bonus_spec(depth as int),
            ),
    {
        let b = bonus(depth);
        self.bump_capture(best, b);
        let ghost start = self.capture@;
        let mut i: usize = 0;
        while i < captures.len()
            invariant
                self.wf(),
                self.main@ == old(self).main@,
                0 <= b <= HISTORY_CAP,
                b == bonus_spec(depth as int),
                start == bump_capture_spec(old(self).capture@, *best, b as int),
                i <= captures@.len(),
                self.capture@ == penalise_capture(start, captures@.subrange(0, i as int), b as int),
                forall|k: int| 0 <= k < captures@.len() ==> (#[trigger] captures@[k]).wf(),
            decreases captures.len() - i,
        {
            self.bump_capture(&captures[i], -b);
            proof {
                assert(captures@.subrange(0, i + 1).drop_last() =~= captures@.subrange(0, i as int));
            }
            i = i + 1;
        }
        proof {
            assert(captures@.subrange(0, i as int) =~= captures@);
        }
    }
}

} // verus!
