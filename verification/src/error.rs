use vstd::prelude::*;
use crate::text::{signed_decimal, push_str, fmt_i64};

verus! {

/// How a child process ended, as its exit status reports it.
#[derive(Debug)]
pub struct Status {
    /// The exit code, when the process exited normally.
    pub code: Option<i32>,
    /// The terminating signal, when a signal ended the process.
    pub signal: Option<i32>,
    /// The rendering of the status that reports show.
    pub text: String,
    /// The wait status as the operating system reported it, from which the
    /// driver restores the status. No decision reads it; every decision that
    /// passes a status on passes it whole.
    pub raw: i32,
}

/// A status as plain values.
pub struct StatusView {
    pub code: Option<i32>,
    pub signal: Option<i32>,
    pub text: Seq<char>,
    pub raw: i32,
}

impl StatusView {
    /// A status is a success exactly when the process exited with code zero.
    pub open spec fn is_success(self) -> bool {
        self.code == Some(0i32)
    }
}

impl View for Status {
    type V = StatusView;

    open spec fn view(&self) -> StatusView {
        StatusView { code: self.code, signal: self.signal, text: self.text@, raw: self.raw }
    }
}

impl Status {

    pub fn success(&self) -> (b: bool)
        ensures
            b == self@.is_success(),
    {
        match self.code {
            Some(c) => c == 0,
            None => false,
        }
    }
}

/// Failures of a recording run.
#[derive(Debug)]
pub enum Error {
    /// An operating system error, by its message.
    Io(String),
    /// A request that the recorder refuses.
    Invalid(String),
    /// A command that ended without success.
    Failed(String, Status),
    /// SIGINT or SIGTERM arrived; the signal number.
    Interrupted(i32),
    /// A bounded wait that ran out.
    Timeout(String),
}

/// An error as plain values.
pub enum ErrorView {
    Io(Seq<char>),
    Invalid(Seq<char>),
    Failed(Seq<char>, StatusView),
    Interrupted(i32),
    Timeout(Seq<char>),
}

impl View for Error {
    type V = ErrorView;

    open spec fn view(&self) -> ErrorView {
        match self {
            Error::Io(m) => ErrorView::Io(m@),
            Error::Invalid(m) => ErrorView::Invalid(m@),
            Error::Failed(c, s) => ErrorView::Failed(c@, s@),
            Error::Interrupted(s) => ErrorView::Interrupted(*s),
            Error::Timeout(m) => ErrorView::Timeout(m@),
        }
    }
}

/// The view of a result whose success carries nothing.
pub open spec fn unit_view(r: Result<(), Error>) -> Result<(), ErrorView> {
    match r {
        Ok(()) => Ok(()),
        Err(e) => Err(e@),
    }
}

/// The text that a report shows for an error.
pub open spec fn error_text(e: ErrorView) -> Seq<char> {
    match e {
        ErrorView::Io(m) => m,
        ErrorView::Invalid(m) => m,
        ErrorView::Failed(command, status) => command + ": "@ + status.text,
        ErrorView::Interrupted(signal) => "interrupted by signal "@ + signed_decimal(signal as int),
        ErrorView::Timeout(m) => "timed out: "@ + m,
    }
}

/// The exit code that a run ending in `e` reports, before narrowing to a byte.
pub open spec fn wide_exit_code(e: ErrorView) -> int {
    match e {
        ErrorView::Interrupted(signal) => 128 + signal,
        ErrorView::Failed(_, status) => match status.code {
            Some(c) if c != 0 => c as int,
            _ => match status.signal {
                Some(s) => 128 + s,
                None => 1,
            },
        },
        _ => 1,
    }
}

/// The process exit code for a run that ended in `e`: the wide code when it fits a byte, else 1.
pub open spec fn exit_code_of(e: ErrorView) -> u8 {
    let c = wide_exit_code(e);
    if 0 <= c <= 255 {
        c as u8
    } else {
        1
    }
}

/// The process exit code of a whole run: 0 on success.
pub open spec fn run_code_of(r: Result<(), ErrorView>) -> u8 {
    match r {
        Ok(()) => 0,
        Err(e) => exit_code_of(e),
    }
}

impl Error {
    /// The text that a report shows for this error.
    pub fn to_string(&self) -> (s: String)
        ensures
            s@ == error_text(self@),
    {
        match self {
            Error::Io(m) => m.clone(),
            Error::Invalid(m) => m.clone(),
            Error::Failed(command, status) => {
                let mut s = command.clone();
                push_str(&mut s, ": ");
                push_str(&mut s, status.text.as_str());
                s
            },
            Error::Interrupted(signal) => {
                let mut s = String::from_str("interrupted by signal ");
                let n = fmt_i64(*signal as i64);
                push_str(&mut s, n.as_str());
                s
            },
            Error::Timeout(m) => {
                let mut s = String::from_str("timed out: ");
                push_str(&mut s, m.as_str());
                s
            },
        }
    }

    /// The exit code of a run that ended in this error.
    pub fn exit_code(&self) -> (code: u8)
        ensures
            code == exit_code_of(self@),
    {
        let wide: i64 = match self {
            Error::Interrupted(signal) => 128 + *signal as i64,
            Error::Failed(_, status) => match status.code {
                Some(c) if c != 0 => c as i64,
                _ => match status.signal {
                    Some(s) => 128 + s as i64,
                    None => 1,
                },
            },
            _ => 1,
        };
        if 0 <= wide && wide <= 255 {
            wide as u8
        } else {
            1
        }
    }
}

/// The exit code of a whole run: 0 when it succeeded, else that of its error.
pub fn run_exit_code(result: &Result<(), Error>) -> (code: u8)
    ensures
        code == run_code_of(unit_view(*result)),
{
    match result {
        Ok(()) => 0,
        Err(e) => e.exit_code(),
    }
}

/// Signal numbers, where an error carries one, are positive, as real signals are.
pub open spec fn signals_positive(e: ErrorView) -> bool {
    match e {
        ErrorView::Interrupted(s) => s > 0,
        ErrorView::Failed(_, status) => match status.signal {
            Some(s) => s > 0,
            None => true,
        },
        _ => true,
    }
}

/// A failed run never exits with code 0. (An interruption by signal number
/// -128, which no real signal has, would map to 0.)
pub proof fn law_failures_exit_nonzero(e: ErrorView)
    requires
        signals_positive(e),
    ensures
        exit_code_of(e) != 0,
{
}

/// An interruption by stop signal `s` exits with 128 + `s` (130 for SIGINT, 143 for SIGTERM).
pub proof fn law_interrupted_exit_code(s: i32)
    requires
        1 <= s <= 127,
    ensures
        exit_code_of(ErrorView::Interrupted(s)) == 128 + s,
{
}

/// A failed command passes on its non-zero exit code when that fits a byte,
/// else 128 + the signal that ended it, else 1.
pub proof fn law_failed_exit_code(command: Seq<char>, st: StatusView)
    ensures
        st.code is Some && 1 <= st.code->0 <= 255 ==> exit_code_of(ErrorView::Failed(command, st)) == st.code->0,
        (st.code is None || st.code == Some(0i32)) && st.signal is Some && 1 <= st.signal->0 <= 127
            ==> exit_code_of(ErrorView::Failed(command, st)) == 128 + st.signal->0,
        (st.code is None || st.code == Some(0i32)) && st.signal is None
            ==> exit_code_of(ErrorView::Failed(command, st)) == 1,
{
}

/// Every other failure exits with 1.
pub proof fn law_other_exit_code(e: ErrorView)
    requires
        e is Io || e is Invalid || e is Timeout,
    ensures
        exit_code_of(e) == 1,
{
}


/// A whole run exits with 0 exactly when it succeeded, and otherwise with the
/// code of its error: a command that failed with exit code `c` in 1..=255 makes
/// the run exit with `c`, and a stop signal `s` in 1..=127 makes it exit with 128 + `s`.
pub proof fn law_run_exits_with_its_error(e: ErrorView, command: Seq<char>, st: StatusView, s: i32)
    ensures
        run_code_of(Ok(())) == 0,
        run_code_of(Err(e)) == exit_code_of(e),
        st.code is Some && 1 <= st.code->0 <= 255 ==> run_code_of(Err(ErrorView::Failed(command, st))) == st.code->0,
        1 <= s <= 127 ==> run_code_of(Err(ErrorView::Interrupted(s))) == 128 + s,
{
}

} // verus!
