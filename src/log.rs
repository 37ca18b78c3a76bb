use vstd::prelude::*;
use vstd::string::*;
use crate::error::CallGraphError;

verus! {

/// The character of one decimal digit.
pub open spec fn digit_char(d: nat) -> char {
    if d == 0 {
        '0'
    } else if d == 1 {
        '1'
    } else if d == 2 {
        '2'
    } else if d == 3 {
        '3'
    } else if d == 4 {
        '4'
    } else if d == 5 {
        '5'
    } else if d == 6 {
        '6'
    } else if d == 7 {
        '7'
    } else if d == 8 {
        '8'
    } else {
        '9'
    }
}

/// The decimal digits of a natural number, most significant first.
pub open spec fn digits(n: nat) -> Seq<char>
    decreases n,
{
    if n < 10 {
        seq![digit_char(n)]
    } else {
        digits(n / 10) + seq![digit_char(n % 10)]
    }
}

/// The decimal text of an integer, with a leading `-` when negative.
pub open spec fn decimal_text(i: int) -> Seq<char> {
    if i < 0 {
        seq!['-'] + digits((-i) as nat)
    } else {
        digits(i as nat)
    }
}

/// Relies on the `Display` impl of `i64` (through `ToString`): decimal
/// digits, with a leading `-` for a negative value.
#[verifier::external_body]
fn decimal(n: i64) -> (r: String)
    ensures
        r@ == decimal_text(n as int),
{
    n.to_string()
}

/// One line of the call-graph log: `<thread id>|<callee>|<caller>` and a
/// newline.
pub open spec fn log_line(tid: i64, callee: Seq<char>, caller: Seq<char>) -> Seq<char> {
    decimal_text(tid as int) + "|"@ + callee + "|"@ + caller + "\n"@
}

/// The state in which a writer finds the shared log sink.
#[derive(Clone, Copy, Debug)]
pub enum SinkState {
    /// The log file is open.
    Open,
    /// Opening the log file failed, or it was never opened.
    Missing,
    /// The lock around the log file is poisoned.
    Poisoned,
}

/// What writing an entry to a sink in the given state comes to.
pub open spec fn entry_outcome(sink: SinkState, tid: i64, callee: Seq<char>, caller: Seq<char>) -> Result<Seq<char>, CallGraphError> {
    match sink {
        SinkState::Poisoned => Err(CallGraphError::LockError),
        SinkState::Missing => Err(CallGraphError::NoLogFile),
        SinkState::Open => Ok(log_line(tid, callee, caller)),
    }
}

/// Prepares one log entry: the line to append and flush when the sink is
/// open, `LockError` when its lock is poisoned, `NoLogFile` when no file was
/// opened.
pub fn write_log_entry(sink: SinkState, tid: i64, callee: &str, caller: &str) -> (r: Result<String, CallGraphError>)
    ensures
        match (r, entry_outcome(sink, tid, callee@, caller@)) {
            (Ok(line), Ok(text)) => line@ == text,
            (Err(e), Err(f)) => e == f,
            _ => false,
        },
{
    match sink {
        SinkState::Poisoned => Err(CallGraphError::LockError),
        SinkState::Missing => Err(CallGraphError::NoLogFile),
        SinkState::Open => {
            let mut line = decimal(tid);
            line.append("|");
            line.append(callee);
            line.append("|");
            line.append(caller);
            line.append("\n");
            Ok(line)
        },
    }
}

} // verus!
