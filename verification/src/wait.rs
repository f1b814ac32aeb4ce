//! Decisions of the bounded polling loops. Durations are in nanoseconds;
//! `elapsed` is the time since the loop's deadline was set.
use vstd::prelude::*;
use crate::error::{Error, ErrorView, Status, StatusView};
use crate::text::{
    space_prefix, space_suffix,
    decimal, ends_with_newline, first_line, first_line_spec, parse_u32, parse_u32_spec,
    push_decimal, push_str, trim, trim_str,
};

verus! {

/// How often a loop looks again.
pub const POLL_NS: u128 = 20_000_000;

/// How long a stopped process, or a cleanup command, may take.
pub const STOP_TIMEOUT_NS: u128 = 5_000_000_000;

/// How long Xvfb may take to report its display number.
pub const DISPLAY_TIMEOUT_NS: u128 = 10_000_000_000;

/// How long a launched application may take to show its window.
pub const WINDOW_TIMEOUT_NS: u128 = 20_000_000_000;

/// The pause between two searches for the application window.
pub const WINDOW_RETRY_NS: u128 = 100_000_000;

/// How long FFmpeg may take to report progress.
pub const CAPTURE_START_TIMEOUT_NS: u128 = 10_000_000_000;

/// The pause that lets the compositor settle after it starts.
pub const COMPOSITOR_SETTLE_NS: u128 = 1_000_000_000;

/// One decision of a polling loop.
#[derive(Debug)]
pub enum Poll<T> {
    /// The loop is done with this value.
    Ready(T),
    /// Pause this long, then look again.
    Wait(u128),
    /// The loop fails with this error.
    Fail(Error),
    /// The recorder's check failed: the loop ends with that check's error, and
    /// a child the loop waits for is left to its owner, who stops it.
    Cancelled,
}

/// The next pause of `Recorder::sleep`: none once more than `duration` has
/// elapsed, else what is left, capped at the polling interval.
pub open spec fn sleep_pause(duration: u128, elapsed: u128) -> Option<u128> {
    if elapsed > duration {
        None
    } else if duration - elapsed < POLL_NS {
        Some((duration - elapsed) as u128)
    } else {
        Some(POLL_NS)
    }
}

/// One step of `Recorder::sleep`: a failed check ends it with that check's
/// error; else it is done once more than `duration` has elapsed, or pauses.
pub open spec fn sleep_poll(checked: bool, duration: u128, elapsed: u128) -> PollView<()> {
    if !checked {
        PollView::Cancelled
    } else {
        match sleep_pause(duration, elapsed) {
            None => PollView::Ready(()),
            Some(p) => PollView::Wait(p),
        }
    }
}

pub fn sleep_step<E>(check: &Result<(), E>, duration: u128, elapsed: u128) -> (r: Poll<()>)
    ensures
        r@ == sleep_poll(check is Ok, duration, elapsed),
{
    if check.is_err() {
        Poll::Cancelled
    } else if elapsed > duration {
        Poll::Ready(())
    } else {
        let left = duration - elapsed;
        Poll::Wait(if left < POLL_NS { left } else { POLL_NS })
    }
}

/// A polling decision as plain values.
pub enum PollView<V> {
    Ready(V),
    Wait(u128),
    Fail(ErrorView),
    Cancelled,
}

impl<T: View> View for Poll<T> {
    type V = PollView<T::V>;

    open spec fn view(&self) -> PollView<T::V> {
        match self {
            Poll::Ready(t) => PollView::Ready(t@),
            Poll::Wait(d) => PollView::Wait(*d),
            Poll::Fail(e) => PollView::Fail(e@),
            Poll::Cancelled => PollView::Cancelled,
        }
    }
}

/// What a command that ended with `status` amounts to: success, or a failure
/// under the command's label.
pub open spec fn completion(label: Seq<char>, status: StatusView) -> PollView<()> {
    if status.is_success() {
        PollView::Ready(())
    } else {
        PollView::Fail(ErrorView::Failed(label, status))
    }
}

fn completion_step(label: &str, status: Status) -> (r: Poll<()>)
    ensures
        r@ == completion(label@, status@),
{
    if status.success() {
        Poll::Ready(())
    } else {
        Poll::Fail(Error::Failed(String::from_str(label), status))
    }
}

/// One look at a command that `Recorder::exec` waits for, with no time limit:
/// a failed check cancels the wait (the command is then stopped by its owner)
/// before its exit is looked at.
pub open spec fn exec_poll(label: Seq<char>, checked: bool, exited: Option<StatusView>) -> PollView<()> {
    if !checked {
        PollView::Cancelled
    } else {
        match exited {
            Some(status) => completion(label, status),
            None => PollView::Wait(POLL_NS),
        }
    }
}

/// `exited` is read only when the check passed.
pub fn exec_step<E>(label: &str, check: &Result<(), E>, exited: Option<Status>) -> (r: Poll<()>)
    ensures
        r@ == exec_poll(label@, check is Ok, option_status_view(exited)),
{
    if check.is_err() {
        return Poll::Cancelled;
    }
    match exited {
        Some(status) => completion_step(label, status),
        None => Poll::Wait(POLL_NS),
    }
}

pub open spec fn option_status_view(s: Option<Status>) -> Option<StatusView> {
    match s {
        Some(st) => Some(st@),
        None => None,
    }
}

/// One look at a consumer cleanup command: as `exec_poll`, but bounded by the stop timeout.
pub open spec fn cleanup_poll(label: Seq<char>, exited: Option<StatusView>, elapsed: u128) -> PollView<()> {
    match exited {
        Some(status) => completion(label, status),
        None => if elapsed >= STOP_TIMEOUT_NS {
            PollView::Fail(ErrorView::Timeout(label))
        } else {
            PollView::Wait(POLL_NS)
        },
    }
}

pub fn cleanup_step(label: &str, exited: Option<Status>, elapsed: u128) -> (r: Poll<()>)
    ensures
        r@ == cleanup_poll(label@, option_status_view(exited), elapsed),
{
    match exited {
        Some(status) => completion_step(label, status),
        None => if elapsed >= STOP_TIMEOUT_NS {
            Poll::Fail(Error::Timeout(String::from_str(label)))
        } else {
            Poll::Wait(POLL_NS)
        },
    }
}

/// One action of stopping a process.
#[derive(Debug)]
pub enum StopAction {
    /// Send this signal to the process's group.
    Signal(String),
    /// Wait for the process to end and reap it.
    Reap,
    /// Stopping is done: the process ended with this status.
    Exited(Status),
    /// Stopping failed with this error.
    Fail(Error),
    /// Pause this long, then look again.
    Sleep(u128),
}

pub enum StopActionView {
    Signal(Seq<char>),
    Reap,
    Exited(StatusView),
    Fail(ErrorView),
    Sleep(u128),
}

impl View for StopAction {
    type V = StopActionView;

    open spec fn view(&self) -> StopActionView {
        match self {
            StopAction::Signal(s) => StopActionView::Signal(s@),
            StopAction::Reap => StopActionView::Reap,
            StopAction::Exited(s) => StopActionView::Exited(s@),
            StopAction::Fail(e) => StopActionView::Fail(e@),
            StopAction::Sleep(d) => StopActionView::Sleep(*d),
        }
    }
}

pub open spec fn stop_actions_view(s: Seq<StopAction>) -> Seq<StopActionView> {
    s.map_values(|a: StopAction| a@)
}

/// What to do at one look at a process being stopped after its stop signal.
/// Once it exited, kill what remains of its process group (the launcher's exit
/// does not empty the group) and report its status. Once it outlived the stop
/// timeout, kill its group, reap it and report a timeout. Before that, wait.
pub open spec fn stop_actions(label: Seq<char>, exited: Option<StatusView>, elapsed: u128) -> Seq<StopActionView> {
    match exited {
        Some(status) => seq![StopActionView::Signal("-KILL"@), StopActionView::Exited(status)],
        None => if elapsed >= STOP_TIMEOUT_NS {
            seq![
                StopActionView::Signal("-KILL"@),
                StopActionView::Reap,
                StopActionView::Fail(ErrorView::Timeout("stopping "@ + label)),
            ]
        } else {
            seq![StopActionView::Sleep(POLL_NS)]
        },
    }
}

fn push_action(v: &mut Vec<StopAction>, a: StopAction)
    ensures
        stop_actions_view(final(v)@) == stop_actions_view(old(v)@).push(a@),
{
    let ghost before = v@;
    let ghost av = a@;
    v.push(a);
    assert(stop_actions_view(v@) =~= stop_actions_view(before).push(av));
}

pub fn stop_step(label: &str, exited: Option<Status>, elapsed: u128) -> (r: Vec<StopAction>)
    ensures
        stop_actions_view(r@) == stop_actions(label@, option_status_view(exited), elapsed),
{
    let mut r: Vec<StopAction> = Vec::new();
    assert(stop_actions_view(r@) =~= Seq::<StopActionView>::empty());
    match exited {
        Some(status) => {
            push_action(&mut r, StopAction::Signal(String::from_str("-KILL")));
            push_action(&mut r, StopAction::Exited(status));
        },
        None => if elapsed >= STOP_TIMEOUT_NS {
            let mut m = String::from_str("stopping ");
            push_str(&mut m, label);
            push_action(&mut r, StopAction::Signal(String::from_str("-KILL")));
            push_action(&mut r, StopAction::Reap);
            push_action(&mut r, StopAction::Fail(Error::Timeout(m)));
        } else {
            push_action(&mut r, StopAction::Sleep(POLL_NS));
        },
    }
    r
}

/// The display name `:N` of display number `n`.
pub open spec fn display_name(n: u32) -> Seq<char> {
    seq![':'] + decimal(n as nat)
}

/// One look at the file into which Xvfb writes its display number: complete
/// once it ends with a line feed, when its trimmed text must be a number.
pub open spec fn display_poll(value: Seq<char>, elapsed: u128) -> PollView<Seq<char>> {
    if value.len() > 0 && value.last() == '\n' {
        match parse_u32_spec(trim(value)) {
            Some(n) => PollView::Ready(display_name(n)),
            None => PollView::Fail(ErrorView::Invalid("invalid Xvfb display number"@)),
        }
    } else if elapsed >= DISPLAY_TIMEOUT_NS {
        PollView::Fail(ErrorView::Timeout("starting Xvfb"@))
    } else {
        PollView::Wait(POLL_NS)
    }
}

/// One look at the Xvfb handshake after the recorder's check: a failed check
/// cancels the wait before the file is looked at.
pub open spec fn display_wait(checked: bool, value: Seq<char>, elapsed: u128) -> PollView<Seq<char>> {
    if !checked {
        PollView::Cancelled
    } else {
        display_poll(value, elapsed)
    }
}

/// `value` is read only when the check passed.
pub fn display_step<E>(check: &Result<(), E>, value: &str, elapsed: u128) -> (r: Poll<String>)
    ensures
        r@ == display_wait(check is Ok, value@, elapsed),
{
    if check.is_err() {
        Poll::Cancelled
    } else if ends_with_newline(value) {
        match parse_u32(trim_str(value)) {
            Some(n) => {
                let mut name = String::new();
                push_str(&mut name, ":");
                proof {
                    reveal_strlit(":");
                    assert(":"@ =~= seq![':']);
                }
                push_decimal(&mut name, n as u128);
                Poll::Ready(name)
            },
            None => Poll::Fail(Error::Invalid(String::from_str("invalid Xvfb display number"))),
        }
    } else if elapsed >= DISPLAY_TIMEOUT_NS {
        Poll::Fail(Error::Timeout(String::from_str("starting Xvfb")))
    } else {
        Poll::Wait(POLL_NS)
    }
}

/// What one search for the application window gave.
#[derive(Debug)]
pub enum Search {
    /// The search ran and printed this.
    Found(String),
    /// The search ran and failed as a command.
    CommandFailed,
    /// The search could not run, or the run was interrupted.
    OtherError,
}

pub enum SearchView {
    Found(Seq<char>),
    CommandFailed,
    OtherError,
}

impl View for Search {
    type V = SearchView;

    open spec fn view(&self) -> SearchView {
        match self {
            Search::Found(s) => SearchView::Found(s@),
            Search::CommandFailed => SearchView::CommandFailed,
            Search::OtherError => SearchView::OtherError,
        }
    }
}

/// The next step of waiting for the application window.
#[derive(Debug)]
pub enum WindowStep {
    /// Place this window.
    Place(String),
    /// Search again after this pause.
    Retry(u128),
    /// Fail with the search's own error.
    PassOn,
    /// Fail with this error.
    Fail(Error),
    /// The recorder's check failed: end with that check's error.
    Cancelled,
}

pub enum WindowStepView {
    Place(Seq<char>),
    Retry(u128),
    PassOn,
    Fail(ErrorView),
    Cancelled,
}

impl View for WindowStep {
    type V = WindowStepView;

    open spec fn view(&self) -> WindowStepView {
        match self {
            WindowStep::Place(w) => WindowStepView::Place(w@),
            WindowStep::Retry(d) => WindowStepView::Retry(*d),
            WindowStep::PassOn => WindowStepView::PassOn,
            WindowStep::Fail(e) => WindowStepView::Fail(e@),
            WindowStep::Cancelled => WindowStepView::Cancelled,
        }
    }
}

/// One search for the launched application's window. The first line of a
/// successful search names the window; a search that found nothing or failed
/// as a command is repeated until the window timeout; any other error ends the
/// wait with that error.
pub open spec fn window_poll(class: Seq<char>, search: SearchView, elapsed: u128) -> WindowStepView {
    match search {
        SearchView::OtherError => WindowStepView::PassOn,
        _ => {
            let found = match search {
                SearchView::Found(out) => first_line_spec(out),
                _ => None,
            };
            if found is Some {
                WindowStepView::Place(found->0)
            } else if elapsed >= WINDOW_TIMEOUT_NS {
                WindowStepView::Fail(ErrorView::Timeout("waiting for window class "@ + class))
            } else {
                WindowStepView::Retry(WINDOW_RETRY_NS)
            }
        },
    }
}

/// One step of waiting for the window, after the recorder's check: a failed
/// check cancels the wait before the search result is looked at.
pub open spec fn window_wait(class: Seq<char>, checked: bool, search: SearchView, elapsed: u128) -> WindowStepView {
    if !checked {
        WindowStepView::Cancelled
    } else {
        window_poll(class, search, elapsed)
    }
}

/// `search` is read only when the check passed.
pub fn window_step<E>(class: &str, check: &Result<(), E>, search: Search, elapsed: u128) -> (r: WindowStep)
    ensures
        r@ == window_wait(class@, check is Ok, search@, elapsed),
{
    if check.is_err() {
        return WindowStep::Cancelled;
    }
    match search {
        Search::OtherError => {
            return WindowStep::PassOn;
        },
        Search::Found(out) => {
            match first_line(out.as_str()) {
                Some(window) => {
                    return WindowStep::Place(window);
                },
                None => {},
            }
        },
        Search::CommandFailed => {},
    }
    if elapsed >= WINDOW_TIMEOUT_NS {
        let mut m = String::from_str("waiting for window class ");
        push_str(&mut m, class);
        WindowStep::Fail(Error::Timeout(m))
    } else {
        WindowStep::Retry(WINDOW_RETRY_NS)
    }
}

/// One look at FFmpeg's progress file: capture has started once it is not empty.
pub open spec fn progress_poll(len: u64, elapsed: u128) -> PollView<()> {
    if len != 0 {
        PollView::Ready(())
    } else if elapsed >= CAPTURE_START_TIMEOUT_NS {
        PollView::Fail(ErrorView::Timeout("starting FFmpeg"@))
    } else {
        PollView::Wait(POLL_NS)
    }
}

pub fn progress_step(len: u64, elapsed: u128) -> (r: Poll<()>)
    ensures
        r@ == progress_poll(len, elapsed),
{
    if len != 0 {
        Poll::Ready(())
    } else if elapsed >= CAPTURE_START_TIMEOUT_NS {
        Poll::Fail(Error::Timeout(String::from_str("starting FFmpeg")))
    } else {
        Poll::Wait(POLL_NS)
    }
}

/// Whether a stopped capture ended well: FFmpeg finalizes the file on SIGINT and
/// then exits with success or with code 255.
pub open spec fn capture_ended_well(status: StatusView) -> bool {
    status.is_success() || status.code == Some(255i32)
}

/// The result of stopping the capture that ended with `status`.
pub fn capture_outcome(label: &str, status: Status) -> (r: Result<(), Error>)
    ensures
        r is Ok <==> capture_ended_well(status@),
        r matches Err(e) ==> e@ == ErrorView::Failed(label@, status@),
{
    let ok = match status.code {
        Some(c) => c == 0 || c == 255,
        None => false,
    };
    if ok {
        Ok(())
    } else {
        Err(Error::Failed(String::from_str(label), status))
    }
}

/// Xvfb's handshake: once the file holds a display number and a line feed, the
/// display is `:` followed by that number, however long the wait took.
pub proof fn law_display_number_read_back(n: u32, elapsed: u128)
    ensures
        display_poll(decimal(n as nat).push('\n'), elapsed) == PollView::<Seq<char>>::Ready(display_name(n)),
{
    let d = decimal(n as nat);
    let v = d.push('\n');
    crate::text::lemma_decimal_denotes(n as nat);
    assert(crate::text::is_digit(d[0]));
    assert(crate::text::is_digit(d.last()));
    assert(v[0] == d[0]);
    assert(space_prefix(v, 0) == 0);
    assert(v[v.len() - 2] == d.last());
    assert(space_suffix(v, 0, v.len() - 1) == v.len() - 1);
    assert(space_suffix(v, 0, v.len() as int) == v.len() - 1);
    assert(trim(v) =~= d);
    crate::text::law_parse_reads_back_decimal(n);
}

/// `Recorder::sleep` returns once more than the requested time has passed, and
/// until then never pauses longer than the polling interval or the time left,
/// so that a stop signal is noticed within one interval.
pub proof fn law_sleep_checks_often(duration: u128, elapsed: u128)
    ensures
        sleep_pause(duration, elapsed) is None <==> elapsed > duration,
        sleep_pause(duration, elapsed) matches Some(p) ==> p <= POLL_NS && elapsed + p <= duration,
{
}

/// Stopping a process: one that exited has what remains of its group killed
/// and is reported with its status, never as a timeout; one still running
/// after the stop timeout is killed with its group, reaped and reported as
/// timed out; before that, the stopper only waits, one polling interval at a time.
pub proof fn law_stop_escalates(label: Seq<char>, exited: Option<StatusView>, elapsed: u128)
    ensures
        exited matches Some(s) ==> stop_actions(label, exited, elapsed)
            == seq![StopActionView::Signal("-KILL"@), StopActionView::Exited(s)],
        exited is None && elapsed >= STOP_TIMEOUT_NS ==> stop_actions(label, exited, elapsed) == seq![
            StopActionView::Signal("-KILL"@),
            StopActionView::Reap,
            StopActionView::Fail(ErrorView::Timeout("stopping "@ + label)),
        ],
        exited is None && elapsed < STOP_TIMEOUT_NS ==> stop_actions(label, exited, elapsed)
            == seq![StopActionView::Sleep(POLL_NS)],
{
}

/// A capture stopped by SIGINT counts as finished when FFmpeg exits with
/// success or with code 255, and as failed otherwise.
pub proof fn law_capture_accepts_255(label: Seq<char>, status: StatusView)
    ensures
        capture_ended_well(status) <==> (status.code == Some(0i32) || status.code == Some(255i32)),
{
}

/// Sending a signal to a process group fails only when `kill` failed and the
/// process still runs (a process that already exited needs no signal).
pub fn signal_outcome(label: &str, kill_succeeded: bool, still_running: bool) -> (r: Result<(), Error>)
    ensures
        r is Ok <==> kill_succeeded || !still_running,
        r matches Err(e) ==> e@ == ErrorView::Io("could not signal "@ + label@),
{
    if !kill_succeeded && still_running {
        let mut m = String::from_str("could not signal ");
        push_str(&mut m, label);
        return Err(Error::Io(m));
    }
    Ok(())
}

/// Consumer cleanup commands have bounded waits: one still running at the stop
/// timeout is reported as timed out under its label; one that exited counts by
/// its status.
pub proof fn law_cleanup_bounded(label: Seq<char>, exited: Option<StatusView>, elapsed: u128)
    ensures
        exited matches Some(s) ==> cleanup_poll(label, exited, elapsed) == completion(label, s),
        exited is None && elapsed >= STOP_TIMEOUT_NS ==> cleanup_poll(label, exited, elapsed)
            == PollView::<()>::Fail(ErrorView::Timeout(label)),
        exited is None && elapsed < STOP_TIMEOUT_NS ==> cleanup_poll(label, exited, elapsed)
            == PollView::<()>::Wait(POLL_NS),
{
}

/// A stop signal, or a child that exited, ends every wait that checks: sleeps,
/// commands, the Xvfb handshake and the window search all stop at a failed
/// check, whatever else they see.
pub proof fn law_checks_cancel_waits(
    label: Seq<char>,
    class: Seq<char>,
    duration: u128,
    elapsed: u128,
    exited: Option<StatusView>,
    value: Seq<char>,
    search: SearchView,
)
    ensures
        sleep_poll(false, duration, elapsed) == PollView::<()>::Cancelled,
        exec_poll(label, false, exited) == PollView::<()>::Cancelled,
        display_wait(false, value, elapsed) == PollView::<Seq<char>>::Cancelled,
        window_wait(class, false, search, elapsed) == WindowStepView::Cancelled,
{
}


/// Before 20 seconds have passed, a search that found no window or failed as a
/// command is repeated after 100 ms; the launch gives up with a timeout only
/// once 20 seconds have passed, and a window found is placed at any time.
pub proof fn law_window_search_patience(class: Seq<char>, search: SearchView, elapsed: u128)
    ensures
        !(search is OtherError) && !(search is Found && first_line_spec(search->Found_0) is Some)
            && elapsed < 20_000_000_000 ==> window_poll(class, search, elapsed) == WindowStepView::Retry(100_000_000),
        !(search is OtherError) && !(search is Found && first_line_spec(search->Found_0) is Some)
            && elapsed >= 20_000_000_000 ==> window_poll(class, search, elapsed)
            == WindowStepView::Fail(ErrorView::Timeout("waiting for window class "@ + class)),
        window_poll(class, search, elapsed) is Fail ==> elapsed >= 20_000_000_000,
        search is Found && first_line_spec(search->Found_0) is Some
            ==> window_poll(class, search, elapsed) == WindowStepView::Place(first_line_spec(search->Found_0)->0),
        search is OtherError ==> window_poll(class, search, elapsed) == WindowStepView::PassOn,
{
}

/// Until Xvfb has written a complete line, the handshake keeps polling every
/// 20 ms for up to 10 seconds; it times out only after 10 seconds.
pub proof fn law_display_handshake_patience(value: Seq<char>, elapsed: u128)
    ensures
        !(value.len() > 0 && value.last() == '\n') && elapsed < 10_000_000_000
            ==> display_poll(value, elapsed) == PollView::<Seq<char>>::Wait(20_000_000),
        !(value.len() > 0 && value.last() == '\n') && elapsed >= 10_000_000_000
            ==> display_poll(value, elapsed) == PollView::<Seq<char>>::Fail(ErrorView::Timeout("starting Xvfb"@)),
        display_poll(value, elapsed) matches PollView::Fail(ErrorView::Timeout(_)) ==> elapsed >= 10_000_000_000,
{
}


/// A command that `exec` waits for is polled every 20 ms while it runs; once it
/// ended, exit code 0 is success and any other ending is a failure under the
/// command's label that carries the very status it ended with.
pub proof fn law_exec_reports_its_command(label: Seq<char>, status: StatusView)
    ensures
        exec_poll(label, true, None) == PollView::<()>::Wait(20_000_000),
        status.code == Some(0i32) ==> exec_poll(label, true, Some(status)) == PollView::<()>::Ready(()),
        status.code != Some(0i32) ==> exec_poll(label, true, Some(status))
            == PollView::<()>::Fail(ErrorView::Failed(label, status)),
{
}

/// Stopping waits 5 seconds, polling every 20 ms, before it gives up; the
/// cleanup commands get the same 5 seconds.
pub proof fn law_stop_and_cleanup_patience(label: Seq<char>, elapsed: u128)
    ensures
        elapsed < 5_000_000_000 ==> stop_actions(label, None, elapsed) == seq![StopActionView::Sleep(20_000_000)],
        elapsed < 5_000_000_000 ==> cleanup_poll(label, None, elapsed) == PollView::<()>::Wait(20_000_000),
        elapsed >= 5_000_000_000 ==> cleanup_poll(label, None, elapsed)
            == PollView::<()>::Fail(ErrorView::Timeout(label)),
        elapsed >= 5_000_000_000 ==> stop_actions(label, None, elapsed).last()
            == StopActionView::Fail(ErrorView::Timeout("stopping "@ + label)),
{
}

/// Capture start waits up to 10 seconds, polling every 20 ms, for FFmpeg to
/// report progress; any progress starts the recipe at once.
pub proof fn law_capture_start_patience(len: u64, elapsed: u128)
    ensures
        len != 0 ==> progress_poll(len, elapsed) == PollView::<()>::Ready(()),
        len == 0 && elapsed < 10_000_000_000 ==> progress_poll(len, elapsed) == PollView::<()>::Wait(20_000_000),
        len == 0 && elapsed >= 10_000_000_000 ==> progress_poll(len, elapsed)
            == PollView::<()>::Fail(ErrorView::Timeout("starting FFmpeg"@)),
{
}

/// A checked sleep ends once more than its duration has passed, and until then
/// pauses at most 20 ms and never past the requested time.
pub proof fn law_sleep_patience(duration: u128, elapsed: u128)
    ensures
        elapsed > duration ==> sleep_poll(true, duration, elapsed) == PollView::<()>::Ready(()),
        elapsed <= duration ==> sleep_poll(true, duration, elapsed) is Wait,
        sleep_poll(true, duration, elapsed) matches PollView::Wait(p) ==> p <= 20_000_000 && elapsed + p <= duration
            && (p == 20_000_000 || elapsed + p == duration),
{
}

} // verus!
