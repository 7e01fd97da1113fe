use vstd::prelude::*;
use vstd::string::StringSliceAdditionalSpecFns;

verus! {

/// A command sent to the search worker.
#[derive(PartialEq, Eq, Structural, Clone, Copy, Debug)]
pub enum Command {
    Go,
    Stop,
    Quit,
    /// Milliseconds the next searches may take.
    MoveTime(u128),
    Other,
}

pub open spec fn is_digit(b: u8) -> bool {
    48 <= b <= 57
}

/// The value of a string of decimal digits.
pub open spec fn decimal(s: Seq<u8>) -> int
    decreases s.len(),
{
    if s.len() == 0 {
        0
    } else {
        decimal(s.drop_last()) * 10 + (s.last() - 48)
    }
}

/// A number as `u128::from_str` reads it: an optional `+`, then at least one digit.
pub open spec fn number_digits(s: Seq<u8>) -> Seq<u8> {
    if s.len() > 0 && s[0] == 43 {
        s.skip(1)
    } else {
        s
    }
}

pub open spec fn number_spec(s: Seq<u8>) -> Option<u128> {
    let d = number_digits(s);
    if d.len() > 0 && (forall|i: int| 0 <= i < d.len() ==> is_digit(#[trigger] d[i])) && decimal(d)
        <= u128::MAX {
        Some(decimal(d) as u128)
    } else {
        None
    }
}

/// Reads a non-negative decimal number.
pub fn parse_number(s: &str) -> (r: Option<u128>)
    ensures
        r == number_spec(s.spec_bytes()),
{
    let b = s.as_bytes();
    let ghost bytes = s.spec_bytes();
    let start: usize = if b.len() > 0 && b[0] == 43 {
        1
    } else {
        0
    };
    let ghost d = number_digits(bytes);
    proof {
        assert(d =~= bytes.subrange(start as int, bytes.len() as int));
    }
    if start >= b.len() {
        return None;
    }
    let mut value: u128 = 0;
    let mut i: usize = start;
    while i < b.len()
        invariant
            b@ == bytes,
            start <= i <= b@.len(),
            d =~= bytes.subrange(start as int, bytes.len() as int),
            d == number_digits(bytes),
            bytes == s.spec_bytes(),
            value == decimal(bytes.subrange(start as int, i as int)),
            forall|k: int| start <= k < i ==> is_digit(#[trigger] bytes[k]),
        decreases b@.len() - i,
    {
        let c = b[i];
        proof {
            assert(bytes.subrange(start as int, i + 1).drop_last() =~= bytes.subrange(
                start as int,
                i as int,
            ));
        }
        if c < 48 || c > 57 {
            proof {
                assert(d[i - start] == c);
                assert(!is_digit(d[i - start]));
                assert(!(forall|k: int| 0 <= k < d.len() ==> is_digit(#[trigger] d[k])));
                assert(number_spec(bytes) is None);
            }
            return None;
        }
        let digit = (c - 48) as u128;
        if value > (u128::MAX - digit) / 10 {
            proof {
                assert(decimal(bytes.subrange(start as int, i + 1)) > u128::MAX) by (nonlinear_arith)
                    requires
                        decimal(bytes.subrange(start as int, i + 1)) == value * 10 + digit,
                        value > (u128::MAX - digit) / 10,
                        0 <= digit <= 9,
                ;
                assert(bytes.subrange(start as int, bytes.len() as int).subrange(0, i + 1 - start)
                    =~= bytes.subrange(start as int, i + 1));
                if forall|k: int| 0 <= k < d.len() ==> is_digit(#[trigger] d[k]) {
                    lemma_decimal_grows(d, i + 1 - start);
                    assert(d.subrange(0, i + 1 - start) =~= bytes.subrange(start as int, i + 1));
                    assert(decimal(d) > u128::MAX);
                }
                assert(number_spec(bytes) is None);
            }
            return None;
        }
        value = value * 10 + digit;
        i = i + 1;
    }
    Some(value)
}

pub open spec fn go_word() -> Seq<u8> {
    seq![103u8, 111u8]
}

pub open spec fn stop_word() -> Seq<u8> {
    seq![115u8, 116u8, 111u8, 112u8]
}

pub open spec fn quit_word() -> Seq<u8> {
    seq![113u8, 117u8, 105u8, 116u8]
}

pub open spec fn movetime_word() -> Seq<u8> {
    seq![109u8, 111u8, 118u8, 101u8, 116u8, 105u8, 109u8, 101u8]
}

pub open spec fn starts_with_spec(s: Seq<u8>, w: Seq<u8>) -> bool {
    s.len() >= w.len() && s.subrange(0, w.len() as int) == w
}

/// The command a line names: `go`, `stop` and `quit` exactly; a line that
/// begins with `movetime` and whose second word is a number sets the time.
pub open spec fn command_spec(line: Seq<u8>, second: Option<Seq<u8>>) -> Command {
    if line == go_word() {
        Command::Go
    } else if line == stop_word() {
        Command::Stop
    } else if line == quit_word() {
        Command::Quit
    } else if starts_with_spec(line, movetime_word()) && second is Some && number_spec(
        second->0,
    ) is Some {
        Command::MoveTime(number_spec(second->0)->0)
    } else {
        Command::Other
    }
}

fn starts_with(s: &[u8], w: &[u8]) -> (r: bool)
    ensures
        r == starts_with_spec(s@, w@),
{
    if s.len() < w.len() {
        return false;
    }
    let mut i: usize = 0;
    while i < w.len()
        invariant
            s@.len() >= w@.len(),
            i <= w@.len(),
            forall|k: int| 0 <= k < i ==> s@[k] == w@[k],
        decreases w@.len() - i,
    {
        if s[i] != w[i] {
            return false;
        }
        i = i + 1;
    }
    proof {
        assert(s@.subrange(0, w@.len() as int) =~= w@);
    }
    true
}

fn same_bytes(s: &[u8], w: &[u8]) -> (r: bool)
    ensures
        r == (s@ == w@),
{
    if s.len() != w.len() {
        return false;
    }
    let r = starts_with(s, w);
    proof {
        assert(s@ =~= s@.subrange(0, w@.len() as int));
    }
    r
}

/// Reads a worker command from its line and the line's second
/// whitespace-separated word, if any.
pub fn parse_command(line: &str, second: Option<&str>) -> (r: Command)
    ensures
        r == command_spec(
            line.spec_bytes(),
            match second {
                Some(t) => Some(t.spec_bytes()),
                None => None,
            },
        ),
{
    let b = line.as_bytes();
    let go: [u8; 2] = [103, 111];
    let stop: [u8; 4] = [115, 116, 111, 112];
    let quit: [u8; 4] = [113, 117, 105, 116];
    let movetime: [u8; 8] = [109, 111, 118, 101, 116, 105, 109, 101];
    proof {
        assert(go@ =~= go_word());
        assert(stop@ =~= stop_word());
        assert(quit@ =~= quit_word());
        assert(movetime@ =~= movetime_word());
    }
    if same_bytes(b, go.as_slice()) {
        Command::Go
    } else if same_bytes(b, stop.as_slice()) {
        Command::Stop
    } else if same_bytes(b, quit.as_slice()) {
        Command::Quit
    } else if starts_with(b, movetime.as_slice()) {
        match second {
            Some(t) => match parse_number(t) {
                Some(v) => Command::MoveTime(v),
                None => Command::Other,
            },
            None => Command::Other,
        }
    } else {
        Command::Other
    }
}

/// What the search worker remembers between commands.
#[derive(PartialEq, Eq, Structural, Clone, Copy, Debug)]
pub struct WorkerState {
    pub halt: bool,
    pub quit: bool,
    /// Milliseconds each search may take.
    pub search_time: u128,
}

/// The worker's response to one command: its next state, and whether it
/// searches now. `go` starts a search, `stop` holds searching, `quit` ends
/// the worker, `movetime` sets the time; after a search the worker holds.
pub fn step(state: WorkerState, cmd: Command) -> (r: (WorkerState, bool))
    ensures
        r.0.search_time == (match cmd {
            Command::MoveTime(t) => t,
            _ => state.search_time,
        }),
        r.0.quit == (state.quit || cmd == Command::Quit),
        r.1 == (!r.0.quit && !(match cmd {
            Command::Go => false,
            Command::Stop => true,
            _ => state.halt,
        })),
        r.0.halt == (r.1 || (match cmd {
            Command::Go => false,
            Command::Stop => true,
            _ => state.halt,
        })),
{
    let mut next = state;
    match cmd {
        Command::MoveTime(t) => {
            next.search_time = t;
        },
        Command::Go => {
            next.halt = false;
        },
        Command::Stop => {
            next.halt = true;
        },
        Command::Quit => {
            next.quit = true;
        },
        Command::Other => {},
    }
    let search = !next.halt && !next.quit;
    if search {
        next.halt = true;
    }
    (next, search)
}

/// A prefix of a digit string is worth no more than the whole.
proof fn lemma_decimal_grows(s: Seq<u8>, n: int)
    requires
        0 <= n <= s.len(),
        forall|i: int| 0 <= i < s.len() ==> is_digit(#[trigger] s[i]),
    ensures
        0 <= decimal(s.subrange(0, n)) <= decimal(s),
    decreases s.len() - n,
{
    if n < s.len() {
        lemma_decimal_grows(s, n + 1);
        assert(s.subrange(0, n + 1).drop_last() =~= s.subrange(0, n));
        assert(is_digit(s[n]));
    } else {
        assert(s.subrange(0, n) =~= s);
        lemma_decimal_nonneg(s);
    }
}

proof fn lemma_decimal_nonneg(s: Seq<u8>)
    requires
        forall|i: int| 0 <= i < s.len() ==> is_digit(#[trigger] s[i]),
    ensures
        decimal(s) >= 0,
    decreases s.len(),
{
    if s.len() > 0 {
        lemma_decimal_nonneg(s.drop_last());
        assert(is_digit(s[s.len() - 1]));
    }
}

} // verus!
