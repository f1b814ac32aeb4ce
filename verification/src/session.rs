//! The recorder's own state and the decisions that read it.
use vstd::prelude::*;
use crate::error::{Error, ErrorView, Status, StatusView, unit_view};
use crate::size::Size;
use crate::text::{decimal, push_decimal, push_str, work_dir_bytes, without_final_newline};

verus! {

/// The long-running children that a recorder owns.
#[derive(Clone, Copy, Debug, PartialEq, Eq, Structural)]
pub enum Role {
    /// The private X server.
    Xvfb,
    /// The compositor that draws the wallpaper.
    Compositor,
    /// The launched application.
    App,
    /// The FFmpeg capture.
    Capture,
}

/// The signal that asks a child to stop: FFmpeg finalizes its file on SIGINT;
/// everything else, commands included, gets SIGTERM.
pub open spec fn stop_signal_of(role: Option<Role>) -> Seq<char> {
    if role == Some(Role::Capture) {
        "-INT"@
    } else {
        "-TERM"@
    }
}

/// The stop signal of a child in `role`, or of a command when `role` is none.
pub fn stop_signal(role: Option<Role>) -> (s: &'static str)
    ensures
        s@ == stop_signal_of(role),
{
    match role {
        Some(Role::Capture) => "-INT",
        _ => "-TERM",
    }
}

/// The order in which `check` looks for children that exited: the capture,
/// the application, the compositor, then the X server.
pub open spec fn watch_order() -> Seq<Role> {
    seq![Role::Capture, Role::App, Role::Compositor, Role::Xvfb]
}

pub fn watched_roles() -> (r: Vec<Role>)
    ensures
        r@ == watch_order(),
{
    let mut r = Vec::new();
    r.push(Role::Capture);
    r.push(Role::App);
    r.push(Role::Compositor);
    r.push(Role::Xvfb);
    r
}

/// What `check` reports: an arrived stop signal first, else the first watched
/// child found exited, else nothing.
pub open spec fn check_result(signal: usize, exited: Option<(Seq<char>, StatusView)>) -> Result<(), ErrorView> {
    if signal != 0 {
        Err(ErrorView::Interrupted(signal as i32))
    } else {
        match exited {
            Some((label, status)) => Err(ErrorView::Failed(label + " exited unexpectedly"@, status)),
            None => Ok(()),
        }
    }
}

/// Decides `check` from the recorded stop signal (0 when none arrived) and the
/// first watched child found exited, with its label.
pub fn check_outcome(signal: usize, exited: Option<(&str, Status)>) -> (r: Result<(), Error>)
    ensures
        unit_view(r) == check_result(signal, match exited {
            Some((l, s)) => Some((l@, s@)),
            None => None,
        }),
{
    if signal != 0 {
        return Err(Error::Interrupted(signal as i32));
    }
    match exited {
        Some((label, status)) => {
            let mut m = String::from_str(label);
            push_str(&mut m, " exited unexpectedly");
            Err(Error::Failed(m, status))
        },
        None => Ok(()),
    }
}

/// One step of closing a recorder.
#[derive(Clone, Copy, Debug, PartialEq, Eq, Structural)]
pub enum CloseStep {
    /// Stop the capture and check how it ended.
    StopCapture,
    /// Run the consumer cleanup command registered in this position.
    Cleanup(usize),
    /// Stop the child in this role.
    Stop(Role),
}

/// The first `done` of `count` cleanup commands, latest registered first.
pub open spec fn cleanups_reversed(count: nat, done: nat) -> Seq<CloseStep> {
    Seq::new(done, |j: int| CloseStep::Cleanup((count - 1 - j) as usize))
}

/// How a recorder closes: stop the capture, run the consumer cleanups in
/// reverse order of registration, then stop the application, the compositor
/// and the X server, each only when it is there.
pub open spec fn close_steps(capture: bool, cleanups: nat, app: bool, compositor: bool, xvfb: bool) -> Seq<CloseStep> {
    (if capture { seq![CloseStep::StopCapture] } else { seq![] })
        + cleanups_reversed(cleanups, cleanups)
        + (if app { seq![CloseStep::Stop(Role::App)] } else { seq![] })
        + (if compositor { seq![CloseStep::Stop(Role::Compositor)] } else { seq![] })
        + (if xvfb { seq![CloseStep::Stop(Role::Xvfb)] } else { seq![] })
}

pub fn close_plan(capture: bool, cleanups: usize, app: bool, compositor: bool, xvfb: bool) -> (r: Vec<CloseStep>)
    ensures
        r@ == close_steps(capture, cleanups as nat, app, compositor, xvfb),
{
    let mut r: Vec<CloseStep> = Vec::new();
    if capture {
        r.push(CloseStep::StopCapture);
    }
    let ghost head = r@;
    let mut i: usize = cleanups;
    while i > 0
        invariant
            i <= cleanups,
            r@ == head + cleanups_reversed(cleanups as nat, (cleanups - i) as nat),
        decreases i,
    {
        i = i - 1;
        r.push(CloseStep::Cleanup(i));
        assert(head + cleanups_reversed(cleanups as nat, (cleanups - i) as nat) =~= (head
            + cleanups_reversed(cleanups as nat, (cleanups - i - 1) as nat)).push(CloseStep::Cleanup(i)));
    }
    if app {
        r.push(CloseStep::Stop(Role::App));
    }
    if compositor {
        r.push(CloseStep::Stop(Role::Compositor));
    }
    if xvfb {
        r.push(CloseStep::Stop(Role::Xvfb));
    }
    r
}

/// Keeps the first failure: `first` when it failed, else `next` (as `Result::and`).
pub open spec fn first_failure<E>(first: Result<(), E>, next: Result<(), E>) -> Result<(), E> {
    match first {
        Err(e) => Err(e),
        Ok(()) => next,
    }
}

pub fn keep_first_failure<E>(first: Result<(), E>, next: Result<(), E>) -> (r: Result<(), E>)
    ensures
        r == first_failure(first, next),
{
    match first {
        Err(e) => Err(e),
        Ok(()) => next,
    }
}

/// Whether the work directory stays when a recorder goes away: it is removed
/// only after a successful run whose final close succeeded, outside a panic;
/// otherwise it keeps the logs.
pub fn keep_work_dir(success: bool, close_ok: bool, panicking: bool) -> (keep: bool)
    ensures
        keep == !(success && close_ok && !panicking),
{
    !(success && close_ok && !panicking)
}

/// The private work directory that `mktemp` created: its printed path without
/// the final line feed, or the failure of `mktemp`.
pub fn work_dir_from(status: Status, stdout: &Vec<u8>) -> (r: Result<Vec<u8>, Error>)
    ensures
        r is Ok <==> status@.is_success(),
        r matches Ok(path) ==> path@ == without_final_newline(stdout@),
        r matches Err(e) ==> e@ == ErrorView::Failed("mktemp"@, status@),
{
    if !status.success() {
        return Err(Error::Failed(String::from_str("mktemp"), status));
    }
    Ok(work_dir_bytes(stdout))
}

/// A change to a child's environment.
#[derive(Debug)]
pub enum EnvChange {
    Assign(String, String),
    Remove(String),
}

pub enum EnvChangeView {
    Assign(Seq<char>, Seq<char>),
    Remove(Seq<char>),
}

impl View for EnvChange {
    type V = EnvChangeView;

    open spec fn view(&self) -> EnvChangeView {
        match self {
            EnvChange::Assign(k, v) => EnvChangeView::Assign(k@, v@),
            EnvChange::Remove(k) => EnvChangeView::Remove(k@),
        }
    }
}

pub open spec fn env_view(s: Seq<EnvChange>) -> Seq<EnvChangeView> {
    s.map_values(|c: EnvChange| c@)
}

/// The environment of the recorder's children: the private display when there
/// is one, X11 for winit, a 256-colour terminal, and none of the variables that
/// would lead a child to the caller's Wayland desktop or turn colour off.
pub open spec fn environment_changes(display: Option<Seq<char>>) -> Seq<EnvChangeView> {
    (match display {
        Some(d) => seq![EnvChangeView::Assign("DISPLAY"@, d)],
        None => seq![],
    }) + seq![
        EnvChangeView::Assign("WINIT_UNIX_BACKEND"@, "x11"@),
        EnvChangeView::Assign("TERM"@, "xterm-256color"@),
        EnvChangeView::Remove("WAYLAND_DISPLAY"@),
        EnvChangeView::Remove("XDG_SESSION_TYPE"@),
        EnvChangeView::Remove("XDG_CURRENT_DESKTOP"@),
        EnvChangeView::Remove("NO_COLOR"@),
    ]
}

fn push_change(v: &mut Vec<EnvChange>, c: EnvChange)
    ensures
        env_view(final(v)@) == env_view(old(v)@).push(c@),
{
    let ghost before = v@;
    let ghost cv = c@;
    v.push(c);
    assert(env_view(v@) =~= env_view(before).push(cv));
}

/// The state that a recorder's decisions read: its display, how many command
/// outputs it has captured, which children it owns and how many consumer
/// cleanup commands wait for the close.
pub struct Session {
    display: Option<(Size, String)>,
    command_number: usize,
    xvfb: bool,
    compositor: bool,
    app: bool,
    capture: bool,
    cleanups: usize,
}

pub struct SessionView {
    pub display: Option<(Size, Seq<char>)>,
    pub command_number: nat,
    pub xvfb: bool,
    pub compositor: bool,
    pub app: bool,
    pub capture: bool,
    pub cleanups: nat,
}

impl View for Session {
    type V = SessionView;

    closed spec fn view(&self) -> SessionView {
        SessionView {
            display: match self.display {
                Some((size, name)) => Some((size, name@)),
                None => None,
            },
            command_number: self.command_number as nat,
            xvfb: self.xvfb,
            compositor: self.compositor,
            app: self.app,
            capture: self.capture,
            cleanups: self.cleanups as nat,
        }
    }
}

/// Whether the recorder owns a child in `role`.
pub open spec fn owns(s: SessionView, role: Role) -> bool {
    match role {
        Role::Xvfb => s.xvfb,
        Role::Compositor => s.compositor,
        Role::App => s.app,
        Role::Capture => s.capture,
    }
}

/// The state with the child in `role` owned or not, and nothing else changed.
pub open spec fn with_child(s: SessionView, role: Role, present: bool) -> SessionView {
    match role {
        Role::Xvfb => SessionView { xvfb: present, ..s },
        Role::Compositor => SessionView { compositor: present, ..s },
        Role::App => SessionView { app: present, ..s },
        Role::Capture => SessionView { capture: present, ..s },
    }
}

/// How a recorder in state `s` closes.
pub open spec fn close_plan_of(s: SessionView) -> Seq<CloseStep> {
    close_steps(s.capture, s.cleanups, s.app, s.compositor, s.xvfb)
}

/// The state after a close: no child and no cleanup left; the display and
/// the output count stay.
pub open spec fn closed(s: SessionView) -> SessionView {
    SessionView { xvfb: false, compositor: false, app: false, capture: false, cleanups: 0, ..s }
}

/// The file of the work directory that holds the output of captured command `n`.
pub open spec fn output_file_name(n: nat) -> Seq<char> {
    "command-"@ + decimal(n) + ".stdout"@
}

/// A display may start when none is known and no X server runs.
pub open spec fn may_start_display(s: SessionView) -> bool {
    s.display is None && !s.xvfb
}

impl Session {
    pub fn new() -> (s: Session)
        ensures
            s@.display is None,
            s@.command_number == 0,
            !s@.xvfb && !s@.compositor && !s@.app && !s@.capture,
            s@.cleanups == 0,
    {
        Session {
            display: None,
            command_number: 0,
            xvfb: false,
            compositor: false,
            app: false,
            capture: false,
            cleanups: 0,
        }
    }

    /// A display starts only once: refused when one is known or its X server runs.
    pub fn begin_display(&self) -> (r: Result<(), Error>)
        ensures
            r is Ok <==> may_start_display(self@),
            r matches Err(e) ==> e@ == ErrorView::Invalid("display already started"@),
    {
        if self.display.is_some() || self.xvfb {
            return Err(Error::Invalid(String::from_str("display already started")));
        }
        Ok(())
    }

    /// Records the display that Xvfb reported.
    pub fn set_display(&mut self, size: Size, name: String)
        ensures
            final(self)@ == (SessionView { display: Some((size, name@)), ..old(self)@ }),
    {
        self.display = Some((size, name));
    }

    /// Whether a child in `role` is owned.
    pub fn has(&self, role: Role) -> (b: bool)
        ensures
            b == owns(self@, role),
    {
        match role {
            Role::Xvfb => self.xvfb,
            Role::Compositor => self.compositor,
            Role::App => self.app,
            Role::Capture => self.capture,
        }
    }

    /// Records that a child in `role` was spawned.
    pub fn started(&mut self, role: Role)
        ensures
            final(self)@ == with_child(old(self)@, role, true),
    {
        match role {
            Role::Xvfb => self.xvfb = true,
            Role::Compositor => self.compositor = true,
            Role::App => self.app = true,
            Role::Capture => self.capture = true,
        }
    }

    /// Gives up the child in `role`, telling whether there was one to stop.
    pub fn take(&mut self, role: Role) -> (had: bool)
        ensures
            had == owns(old(self)@, role),
            final(self)@ == with_child(old(self)@, role, false),
    {
        let had = self.has(role);
        match role {
            Role::Xvfb => self.xvfb = false,
            Role::Compositor => self.compositor = false,
            Role::App => self.app = false,
            Role::Capture => self.capture = false,
        }
        had
    }

    /// The number of consumer cleanup commands registered.
    pub fn cleanup_count(&self) -> (n: usize)
        ensures
            n == self@.cleanups,
    {
        self.cleanups
    }

    /// Registers one more consumer cleanup command and gives its position.
    pub fn register_cleanup(&mut self) -> (i: usize)
        requires
            old(self)@.cleanups < usize::MAX,
        ensures
            i == old(self)@.cleanups,
            final(self)@ == (SessionView { cleanups: old(self)@.cleanups + 1, ..old(self)@ }),
    {
        let i = self.cleanups;
        self.cleanups = self.cleanups + 1;
        i
    }

    /// Starts closing: the steps of the close, after which the recorder owns
    /// no child and no cleanup, whatever the steps give.
    pub fn begin_close(&mut self) -> (plan: Vec<CloseStep>)
        ensures
            plan@ == close_plan_of(old(self)@),
            final(self)@ == closed(old(self)@),
    {
        let plan = close_plan(self.capture, self.cleanups, self.app, self.compositor, self.xvfb);
        self.xvfb = false;
        self.compositor = false;
        self.app = false;
        self.capture = false;
        self.cleanups = 0;
        plan
    }

    /// The display's size and name, which capturing and launching need.
    pub fn display_info(&self) -> (r: Result<(Size, String), Error>)
        ensures
            r is Ok <==> self@.display is Some,
            r matches Ok((size, name)) ==> self@.display == Some((size, name@)),
            r matches Err(e) ==> e@ == ErrorView::Invalid("start a display before capturing or launching"@),
    {
        match &self.display {
            Some((size, name)) => Ok((*size, name.clone())),
            None => Err(Error::Invalid(String::from_str("start a display before capturing or launching"))),
        }
    }

    /// A recording starts only when none is active and a display is known.
    pub fn begin_record(&self) -> (r: Result<(Size, String), Error>)
        ensures
            r is Ok <==> !self@.capture && self@.display is Some,
            r matches Ok((size, name)) ==> self@.display == Some((size, name@)),
            r matches Err(e) ==> e@ == (if self@.capture {
                ErrorView::Invalid("recording already active"@)
            } else {
                ErrorView::Invalid("start a display before capturing or launching"@)
            }),
    {
        if self.capture {
            return Err(Error::Invalid(String::from_str("recording already active")));
        }
        self.display_info()
    }

    /// Ends a recording: the capture is given up whatever happened, and the
    /// recipe's failure wins over the failure to finalize the video.
    pub fn finish_record<E>(&mut self, result: Result<(), E>, finalized: Result<(), E>) -> (r: Result<(), E>)
        ensures
            final(self)@ == with_child(old(self)@, Role::Capture, false),
            r == first_failure(result, finalized),
    {
        self.capture = false;
        keep_first_failure(result, finalized)
    }

    /// How many outputs were captured.
    pub fn output_count(&self) -> (n: usize)
        ensures
            n == self@.command_number,
    {
        self.command_number
    }

    /// Numbers the next captured output and names its file.
    pub fn next_output_file(&mut self) -> (name: String)
        requires
            old(self)@.command_number < usize::MAX,
        ensures
            final(self)@ == (SessionView { command_number: old(self)@.command_number + 1, ..old(self)@ }),
            name@ == output_file_name(final(self)@.command_number),
    {
        self.command_number = self.command_number + 1;
        let mut name = String::from_str("command-");
        push_decimal(&mut name, self.command_number as u128);
        push_str(&mut name, ".stdout");
        name
    }

    pub fn environment(&self) -> (r: Vec<EnvChange>)
        ensures
            env_view(r@) == environment_changes(match self@.display {
                Some((_, name)) => Some(name),
                None => None,
            }),
    {
        let mut r: Vec<EnvChange> = Vec::new();
        assert(env_view(r@) =~= Seq::<EnvChangeView>::empty());
        match &self.display {
            Some((_, name)) => {
                push_change(&mut r, EnvChange::Assign(String::from_str("DISPLAY"), name.clone()));
            },
            None => {},
        }
        let ghost head = env_view(r@);
        push_change(&mut r, EnvChange::Assign(String::from_str("WINIT_UNIX_BACKEND"), String::from_str("x11")));
        push_change(&mut r, EnvChange::Assign(String::from_str("TERM"), String::from_str("xterm-256color")));
        push_change(&mut r, EnvChange::Remove(String::from_str("WAYLAND_DISPLAY")));
        push_change(&mut r, EnvChange::Remove(String::from_str("XDG_SESSION_TYPE")));
        push_change(&mut r, EnvChange::Remove(String::from_str("XDG_CURRENT_DESKTOP")));
        push_change(&mut r, EnvChange::Remove(String::from_str("NO_COLOR")));
        r
    }
}

/// Captured outputs never share a file: distinct command numbers name distinct files.
pub proof fn law_output_files_distinct(m: nat, n: nat)
    requires
        m != n,
    ensures
        output_file_name(m) != output_file_name(n),
{
    if output_file_name(m) == output_file_name(n) {
        let a = output_file_name(m);
        let pre = "command-"@;
        let post = ".stdout"@;
        assert(pre.len() == 8) by {
            reveal_strlit("command-");
        }
        assert(post.len() == 7) by {
            reveal_strlit(".stdout");
        }
        assert(a.subrange(8, a.len() - 7) =~= decimal(m));
        assert(output_file_name(n).subrange(8, a.len() - 7) =~= decimal(n));
        crate::text::lemma_decimal_injective(m, n);
    }
}

/// A stop signal takes precedence over any child that exited.
pub proof fn law_interruption_first(signal: usize, exited: Option<(Seq<char>, StatusView)>)
    requires
        signal != 0,
    ensures
        check_result(signal, exited) == Err::<(), ErrorView>(ErrorView::Interrupted(signal as i32)),
{
}

/// The position of the first cleanup step: after the capture's, when there is one.
pub open spec fn first_cleanup(capture: bool) -> int {
    if capture {
        1
    } else {
        0
    }
}

/// Closing stops the capture first (so that its file is finalized before
/// anything else goes), runs the consumer cleanups latest first, and stops the
/// X server last; every registered cleanup runs exactly once.
pub proof fn law_close_order(capture: bool, cleanups: nat, app: bool, compositor: bool, xvfb: bool)
    ensures
        capture ==> close_steps(capture, cleanups, app, compositor, xvfb)[0] == CloseStep::StopCapture,
        xvfb ==> close_steps(capture, cleanups, app, compositor, xvfb).last() == CloseStep::Stop(Role::Xvfb),
        forall|k: int| first_cleanup(capture) <= k < first_cleanup(capture) + cleanups
            ==> #[trigger] close_steps(capture, cleanups, app, compositor, xvfb)[k]
            == CloseStep::Cleanup((first_cleanup(capture) + cleanups - 1 - k) as usize),
        forall|k: int| 0 <= k < close_steps(capture, cleanups, app, compositor, xvfb).len()
            && #[trigger] close_steps(capture, cleanups, app, compositor, xvfb)[k] is Cleanup
            ==> first_cleanup(capture) <= k < first_cleanup(capture) + cleanups,
        close_steps(capture, cleanups, app, compositor, xvfb).len() == first_cleanup(capture)
            + cleanups + (if app { 1int } else { 0int }) + (if compositor { 1int } else { 0int })
            + (if xvfb { 1int } else { 0int }),
{
    let s = close_steps(capture, cleanups, app, compositor, xvfb);
    let c = first_cleanup(capture);
    assert forall|k: int| c <= k < c + cleanups implies #[trigger] s[k] == CloseStep::Cleanup((c + cleanups - 1 - k) as usize) by {
        assert(cleanups_reversed(cleanups, cleanups)[k - c] == CloseStep::Cleanup((cleanups - 1 - (k - c)) as usize));
    }
    let head = if capture { seq![CloseStep::StopCapture] } else { Seq::<CloseStep>::empty() };
    let tail = (if app { seq![CloseStep::Stop(Role::App)] } else { Seq::<CloseStep>::empty() })
        + (if compositor { seq![CloseStep::Stop(Role::Compositor)] } else { Seq::<CloseStep>::empty() })
        + (if xvfb { seq![CloseStep::Stop(Role::Xvfb)] } else { Seq::<CloseStep>::empty() });
    assert(s =~= head + cleanups_reversed(cleanups, cleanups) + tail);
    assert forall|k: int| 0 <= k < s.len() && #[trigger] s[k] is Cleanup implies c <= k < c + cleanups by {
        if k < c {
            assert(s[k] == head[k]);
        } else if k >= c + cleanups {
            assert(s[k] == tail[k - c - cleanups]);
            assert(!(tail[k - c - cleanups] is Cleanup));
        }
    }
}

/// A recorder has at most one display: once one is recorded, or while its X
/// server runs, starting another is refused.
pub proof fn law_display_starts_once(before: SessionView, size: Size, name: Seq<char>)
    ensures
        !may_start_display(SessionView { display: Some((size, name)), ..before }),
        !may_start_display(with_child(before, Role::Xvfb, true)),
{
}

/// A close leaves no child and no cleanup behind, so a second close has
/// nothing to do and changes nothing.
pub proof fn law_close_is_final(s: SessionView)
    ensures
        close_plan_of(closed(s)).len() == 0,
        closed(closed(s)) == closed(s),
        forall|r: Role| !#[trigger] owns(closed(s), r),
{
    assert(close_plan_of(closed(s)) =~= Seq::<CloseStep>::empty());
}

/// After a recording, the capture slot is empty, whatever the recipe and the
/// finalization gave.
pub proof fn law_record_releases_capture(s: SessionView)
    ensures
        !owns(with_child(s, Role::Capture, false), Role::Capture),
{
}


/// An earlier failure is never replaced by what comes after it, not even by a
/// success; after a success, the next result is what counts. So a recording
/// whose recipe failed reports that failure however the finalization went, and
/// a close reports its first failure.
pub proof fn law_first_failure_wins<E>(e: E, next: Result<(), E>)
    ensures
        first_failure(Err::<(), E>(e), next) == Err::<(), E>(e),
        first_failure(Ok::<(), E>(()), next) == next,
        first_failure(Ok::<(), E>(()), Ok::<(), E>(())) is Ok,
{
}

/// Without a stop signal, a watched child found exited fails the check
/// whatever its status, a successful exit included; with nothing exited the
/// check passes.
pub proof fn law_exited_child_fails_check(label: Seq<char>, status: StatusView)
    ensures
        check_result(0, Some((label, status)))
            == Err::<(), ErrorView>(ErrorView::Failed(label + " exited unexpectedly"@, status)),
        check_result(0, None) == Ok::<(), ErrorView>(()),
{
}

} // verus!
