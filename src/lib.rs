use vstd::prelude::*;

pub mod reading;
pub mod sink_influxdb;
pub mod stream;
pub mod web;

verus! {

/// Why a number of seconds could not be read.
#[derive(Clone, Copy, Debug, PartialEq, Eq, Structural)]
pub enum ParseIntError {
    /// The text is empty.
    Empty,
    /// The text holds a character that is not a decimal digit (after an optional
    /// leading `+`), or is a lone `+`.
    InvalidDigit,
    /// The number does not fit in a `u64`.
    PosOverflow,
}

/// Whether a character is an ASCII decimal digit.
pub open spec fn is_digit(c: char) -> bool {
    '0' <= c <= '9'
}

/// The value of a decimal digit.
pub open spec fn digit_value(c: char) -> nat {
    (c as nat - '0' as nat) as nat
}

/// Reads the digits `d` left to right onto the value `acc` read so far: the first
/// character that is no digit fails with `InvalidDigit`, the first digit that takes
/// the value past `u64::MAX` fails with `PosOverflow`.
pub open spec fn read_digits(d: Seq<char>, acc: nat) -> Result<u64, ParseIntError>
    decreases d.len(),
{
    if d.len() == 0 {
        if acc <= u64::MAX {
            Ok(acc as u64)
        } else {
            Err(ParseIntError::PosOverflow)
        }
    } else if !is_digit(d[0]) {
        Err(ParseIntError::InvalidDigit)
    } else if acc * 10 + digit_value(d[0]) > u64::MAX {
        Err(ParseIntError::PosOverflow)
    } else {
        read_digits(d.drop_first(), acc * 10 + digit_value(d[0]))
    }
}

/// What reading `s` as a number of seconds gives: empty text fails with `Empty`, a
/// lone `+` with `InvalidDigit`, and otherwise the digits after an optional leading
/// `+` are read.
pub open spec fn spec_parse_secs(s: Seq<char>) -> Result<u64, ParseIntError> {
    if s.len() == 0 {
        Err(ParseIntError::Empty)
    } else if s[0] == '+' {
        if s.len() == 1 {
            Err(ParseIntError::InvalidDigit)
        } else {
            read_digits(s.drop_first(), 0)
        }
    } else {
        read_digits(s, 0)
    }
}

/// Reads a poll interval given as a whole number of seconds, in decimal with an
/// optional leading `+`.
pub fn parse_duration(secs_str: &str) -> (r: Result<u64, ParseIntError>)
    ensures
        r == spec_parse_secs(secs_str@),
{
    let ghost s = secs_str@;
    let n = secs_str.unicode_len();
    if n == 0 {
        return Err(ParseIntError::Empty);
    }
    let mut i: usize = 0;
    if secs_str.get_char(0) == '+' {
        if n == 1 {
            return Err(ParseIntError::InvalidDigit);
        }
        i = 1;
        assert(s.drop_first() =~= s.subrange(1, n as int));
    } else {
        assert(s =~= s.subrange(0, n as int));
    }
    let mut acc: u64 = 0;
    while i < n
        invariant
            n == s.len(),
            s == secs_str@,
            i <= n,
            spec_parse_secs(s) == read_digits(s.subrange(i as int, n as int), acc as nat),
        decreases n - i,
    {
        let c = secs_str.get_char(i);
        let ghost rest = s.subrange(i as int, n as int);
        assert(rest[0] == c);
        assert(rest.drop_first() =~= s.subrange(i + 1, n as int));
        if c < '0' || c > '9' {
            return Err(ParseIntError::InvalidDigit);
        }
        let digit = (c as u32 - '0' as u32) as u64;
        if acc > (u64::MAX - digit) / 10 {
            assert(acc * 10 + digit > u64::MAX) by (nonlinear_arith)
                requires
                    acc > (u64::MAX - digit) / 10,
                    digit <= 9,
            ;
            return Err(ParseIntError::PosOverflow);
        }
        assert(acc * 10 + digit <= u64::MAX) by (nonlinear_arith)
            requires
                acc <= (u64::MAX - digit) / 10,
                digit <= 9,
        ;
        acc = acc * 10 + digit;
        i = i + 1;
    }
    assert(s.subrange(n as int, n as int).len() == 0);
    Ok(acc)
}

/// Something that ends the wait of the process: an interrupt, or the work coming
/// to an end.
#[derive(Clone, Debug)]
pub enum ExitEvent {
    Interrupted,
    /// A one-shot command finished without error.
    Completed,
    /// The streaming pipeline, which is meant to run until interrupted, returned
    /// without error.
    PipelineEnded,
    /// The work ended with this error.
    Failed(String),
}

/// How the process ends: whether the pipeline is aborted, and the exit status.
#[derive(Clone, Copy, Debug, PartialEq, Eq, Structural)]
pub struct ExitDecision {
    pub abort_pipeline: bool,
    pub status: i32,
}

/// Decides how the process ends on the first event that reaches it. An interrupt
/// aborts the pipeline at once and ends cleanly; an error, or a streaming pipeline
/// that came to an end on its own (an internal error), ends with `-1`; a one-shot
/// command that finished ends with `0`.
pub fn decide_exit(event: &ExitEvent) -> (r: ExitDecision)
    ensures
        event is Interrupted ==> r.abort_pipeline && r.status == 0,
        event is Completed ==> !r.abort_pipeline && r.status == 0,
        event is PipelineEnded ==> !r.abort_pipeline && r.status == -1,
        event is Failed ==> !r.abort_pipeline && r.status == -1,
{
    match event {
        ExitEvent::Interrupted => ExitDecision { abort_pipeline: true, status: 0 },
        ExitEvent::Completed => ExitDecision { abort_pipeline: false, status: 0 },
        ExitEvent::PipelineEnded => ExitDecision { abort_pipeline: false, status: -1 },
        ExitEvent::Failed(_) => ExitDecision { abort_pipeline: false, status: -1 },
    }
}

} // verus!
