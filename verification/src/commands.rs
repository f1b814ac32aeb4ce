//! The command lines of the capture tools. Paths stand as slots that the
//! driver fills in; everything else is text.
use vstd::prelude::*;
use crate::error::{Error, ErrorView};
use crate::size::{Size, size_text};
use crate::text::{decimal, push_decimal, push_str};

verus! {

/// A path argument, filled in by the driver.
#[derive(Clone, Copy, Debug, PartialEq, Eq, Structural)]
pub enum Slot {
    /// The video that an export reads.
    Input,
    /// The file that a capture or an export writes.
    Output,
    /// The file into which FFmpeg reports its progress.
    Progress,
    /// The image that becomes the wallpaper.
    Wallpaper,
}

/// One argument of a command line.
#[derive(Debug)]
pub enum Arg {
    Text(String),
    Path(Slot),
}

pub enum ArgView {
    Text(Seq<char>),
    Path(Slot),
}

impl View for Arg {
    type V = ArgView;

    open spec fn view(&self) -> ArgView {
        match self {
            Arg::Text(s) => ArgView::Text(s@),
            Arg::Path(p) => ArgView::Path(*p),
        }
    }
}

/// Where an output stream of a child goes.
#[derive(Debug)]
pub enum Stream {
    /// Where the caller's goes (or where the call that runs it sends it).
    Inherit,
    /// Nowhere.
    Null,
    /// A new file of this name in the work directory.
    Work(String),
    /// The same file as standard output.
    SameAsStdout,
}

pub enum StreamView {
    Inherit,
    Null,
    Work(Seq<char>),
    SameAsStdout,
}

impl View for Stream {
    type V = StreamView;

    open spec fn view(&self) -> StreamView {
        match self {
            Stream::Inherit => StreamView::Inherit,
            Stream::Null => StreamView::Null,
            Stream::Work(s) => StreamView::Work(s@),
            Stream::SameAsStdout => StreamView::SameAsStdout,
        }
    }
}

/// A command to run without a shell; standard input is always closed.
#[derive(Debug)]
pub struct CommandLine {
    pub program: String,
    pub args: Vec<Arg>,
    pub stdout: Stream,
    pub stderr: Stream,
    /// Whether the recorder's display environment applies.
    pub environment: bool,
}

pub open spec fn args_view(args: Seq<Arg>) -> Seq<ArgView> {
    args.map_values(|a: Arg| a@)
}

/// A command line as plain values.
pub struct CommandView {
    pub program: Seq<char>,
    pub args: Seq<ArgView>,
    pub stdout: StreamView,
    pub stderr: StreamView,
    pub environment: bool,
}

impl View for CommandLine {
    type V = CommandView;

    open spec fn view(&self) -> CommandView {
        CommandView {
            program: self.program@,
            args: args_view(self.args@),
            stdout: self.stdout@,
            stderr: self.stderr@,
            environment: self.environment,
        }
    }
}

pub open spec fn word(s: Seq<char>) -> ArgView {
    ArgView::Text(s)
}

fn push_lit(v: &mut Vec<Arg>, s: &str)
    ensures
        args_view(final(v)@) == args_view(old(v)@).push(ArgView::Text(s@)),
{
    let ghost before = v@;
    v.push(Arg::Text(String::from_str(s)));
    assert(args_view(v@) =~= args_view(before).push(ArgView::Text(s@)));
}

fn push_owned(v: &mut Vec<Arg>, s: String)
    ensures
        args_view(final(v)@) == args_view(old(v)@).push(ArgView::Text(s@)),
{
    let ghost before = v@;
    let ghost sv = s@;
    v.push(Arg::Text(s));
    assert(args_view(v@) =~= args_view(before).push(ArgView::Text(sv)));
}

fn push_slot(v: &mut Vec<Arg>, p: Slot)
    ensures
        args_view(final(v)@) == args_view(old(v)@).push(ArgView::Path(p)),
{
    let ghost before = v@;
    v.push(Arg::Path(p));
    assert(args_view(v@) =~= args_view(before).push(ArgView::Path(p)));
}

fn decimal_string(n: u128) -> (s: String)
    ensures
        s@ == decimal(n as nat),
{
    let mut s = String::new();
    push_decimal(&mut s, n);
    s
}

/// The arguments of the command that sends `signal` to process group `pid`.
pub open spec fn kill_args(signal: Seq<char>, pid: u32) -> Seq<ArgView> {
    seq![
        word(signal),
        word("--"@),
        word(seq!['-'] + decimal(pid as nat)),
    ]
}

/// The command that sends `signal` to process group `pid`.
pub fn kill_command(signal: &str, pid: u32) -> (c: CommandLine)
    ensures
        c@.program == "kill"@,
        c@.args == kill_args(signal@, pid),
        c@.stdout == StreamView::Null,
        c@.stderr == StreamView::Null,
        !c@.environment,
{
    let mut group = String::new();
    push_str(&mut group, "-");
    proof {
        reveal_strlit("-");
        assert("-"@ =~= seq!['-']);
    }
    push_decimal(&mut group, pid as u128);
    let mut args: Vec<Arg> = Vec::new();
    proof {
        assert(args_view(args@) =~= Seq::<ArgView>::empty());
    }
    push_owned(&mut args, String::from_str(signal));
    push_lit(&mut args, "--");
    push_owned(&mut args, group);
    proof {
        assert(args_view(args@) =~= kill_args(signal@, pid));
    }
    CommandLine {
        program: String::from_str("kill"),
        args,
        stdout: Stream::Null,
        stderr: Stream::Null,
        environment: false,
    }
}

/// The arguments of the command that creates the private work directory.
pub open spec fn mktemp_args() -> Seq<ArgView> {
    seq![
        word("-d"@),
        word("-t"@),
        word("kinestra.XXXXXX"@),
    ]
}

/// The command that creates the private work directory.
pub fn mktemp_command() -> (c: CommandLine)
    ensures
        c@.program == "mktemp"@,
        c@.args == mktemp_args(),
        c@.stdout == StreamView::Inherit,
        c@.stderr == StreamView::Inherit,
        !c@.environment,
{
    let mut args: Vec<Arg> = Vec::new();
    proof {
        assert(args_view(args@) =~= Seq::<ArgView>::empty());
    }
    push_lit(&mut args, "-d");
    push_lit(&mut args, "-t");
    push_lit(&mut args, "kinestra.XXXXXX");
    proof {
        assert(args_view(args@) =~= mktemp_args());
    }
    CommandLine {
        program: String::from_str("mktemp"),
        args,
        stdout: Stream::Inherit,
        stderr: Stream::Inherit,
        environment: false,
    }
}

/// The arguments of the command that starts the private X display of `size`, 24 bits deep.
pub open spec fn xvfb_args(size: Size) -> Seq<ArgView> {
    seq![
        word("-displayfd"@),
        word("1"@),
        word("-screen"@),
        word("0"@),
        word(size_text(size) + "x24"@),
        word("-nolisten"@),
        word("tcp"@),
        word("+extension"@),
        word("Composite"@),
    ]
}

/// The command that starts the private X display of `size`, 24 bits deep.
pub fn xvfb_command(size: Size) -> (c: CommandLine)
    ensures
        c@.program == "Xvfb"@,
        c@.args == xvfb_args(size),
        c@.stdout == StreamView::Work("display"@),
        c@.stderr == StreamView::Work("xvfb.log"@),
        !c@.environment,
{
    let mut screen = size.to_string();
    push_str(&mut screen, "x24");
    let mut args: Vec<Arg> = Vec::new();
    proof {
        assert(args_view(args@) =~= Seq::<ArgView>::empty());
    }
    push_lit(&mut args, "-displayfd");
    push_lit(&mut args, "1");
    push_lit(&mut args, "-screen");
    push_lit(&mut args, "0");
    push_owned(&mut args, screen);
    push_lit(&mut args, "-nolisten");
    push_lit(&mut args, "tcp");
    push_lit(&mut args, "+extension");
    push_lit(&mut args, "Composite");
    proof {
        assert(args_view(args@) =~= xvfb_args(size));
    }
    CommandLine {
        program: String::from_str("Xvfb"),
        args,
        stdout: Stream::Work(String::from_str("display")),
        stderr: Stream::Work(String::from_str("xvfb.log")),
        environment: false,
    }
}

/// The arguments of the command that sets the wallpaper.
pub open spec fn wallpaper_args() -> Seq<ArgView> {
    seq![
        word("--zoom"@),
        ArgView::Path(Slot::Wallpaper),
    ]
}

/// The command that sets the wallpaper.
pub fn wallpaper_command() -> (c: CommandLine)
    ensures
        c@.program == "xwallpaper"@,
        c@.args == wallpaper_args(),
        c@.stdout == StreamView::Inherit,
        c@.stderr == StreamView::Inherit,
        c@.environment,
{
    let mut args: Vec<Arg> = Vec::new();
    proof {
        assert(args_view(args@) =~= Seq::<ArgView>::empty());
    }
    push_lit(&mut args, "--zoom");
    push_slot(&mut args, Slot::Wallpaper);
    proof {
        assert(args_view(args@) =~= wallpaper_args());
    }
    CommandLine {
        program: String::from_str("xwallpaper"),
        args,
        stdout: Stream::Inherit,
        stderr: Stream::Inherit,
        environment: true,
    }
}

/// The arguments of the command that starts the compositor.
pub open spec fn compositor_args() -> Seq<ArgView> {
    seq![
        word("--backend"@),
        word("xrender"@),
        word("--vsync"@),
        word("--config"@),
        word("/dev/null"@),
    ]
}

/// The command that starts the compositor.
pub fn compositor_command() -> (c: CommandLine)
    ensures
        c@.program == "picom"@,
        c@.args == compositor_args(),
        c@.stdout == StreamView::Work("picom.log"@),
        c@.stderr == StreamView::Inherit,
        c@.environment,
{
    let mut args: Vec<Arg> = Vec::new();
    proof {
        assert(args_view(args@) =~= Seq::<ArgView>::empty());
    }
    push_lit(&mut args, "--backend");
    push_lit(&mut args, "xrender");
    push_lit(&mut args, "--vsync");
    push_lit(&mut args, "--config");
    push_lit(&mut args, "/dev/null");
    proof {
        assert(args_view(args@) =~= compositor_args());
    }
    CommandLine {
        program: String::from_str("picom"),
        args,
        stdout: Stream::Work(String::from_str("picom.log")),
        stderr: Stream::Inherit,
        environment: true,
    }
}

/// The arguments of the command that lists the windows of class `class`.
pub open spec fn window_search_args(class: Seq<char>) -> Seq<ArgView> {
    seq![
        word("search"@),
        word("--class"@),
        word(class),
    ]
}

/// The command that lists the windows of class `class`.
pub fn window_search_command(class: &str) -> (c: CommandLine)
    ensures
        c@.program == "xdotool"@,
        c@.args == window_search_args(class@),
        c@.stdout == StreamView::Inherit,
        c@.stderr == StreamView::Null,
        c@.environment,
{
    let mut args: Vec<Arg> = Vec::new();
    proof {
        assert(args_view(args@) =~= Seq::<ArgView>::empty());
    }
    push_lit(&mut args, "search");
    push_lit(&mut args, "--class");
    push_owned(&mut args, String::from_str(class));
    proof {
        assert(args_view(args@) =~= window_search_args(class@));
    }
    CommandLine {
        program: String::from_str("xdotool"),
        args,
        stdout: Stream::Inherit,
        stderr: Stream::Null,
        environment: true,
    }
}

/// The arguments of the command that moves window `window` to the origin, gives it the display size and focuses it.
pub open spec fn place_window_args(window: Seq<char>, size: Size) -> Seq<ArgView> {
    seq![
        word("windowmove"@),
        word(window),
        word("0"@),
        word("0"@),
        word("windowsize"@),
        word(window),
        word(decimal(size.spec_width() as nat)),
        word(decimal(size.spec_height() as nat)),
        word("windowfocus"@),
        word("--sync"@),
        word(window),
    ]
}

/// The command that moves window `window` to the origin, gives it the display size and focuses it.
pub fn place_window_command(window: &str, size: Size) -> (c: CommandLine)
    ensures
        c@.program == "xdotool"@,
        c@.args == place_window_args(window@, size),
        c@.stdout == StreamView::Inherit,
        c@.stderr == StreamView::Inherit,
        c@.environment,
{
    let mut args: Vec<Arg> = Vec::new();
    proof {
        assert(args_view(args@) =~= Seq::<ArgView>::empty());
    }
    push_lit(&mut args, "windowmove");
    push_owned(&mut args, String::from_str(window));
    push_lit(&mut args, "0");
    push_lit(&mut args, "0");
    push_lit(&mut args, "windowsize");
    push_owned(&mut args, String::from_str(window));
    push_owned(&mut args, decimal_string(size.width() as u128));
    push_owned(&mut args, decimal_string(size.height() as u128));
    push_lit(&mut args, "windowfocus");
    push_lit(&mut args, "--sync");
    push_owned(&mut args, String::from_str(window));
    proof {
        assert(args_view(args@) =~= place_window_args(window@, size));
    }
    CommandLine {
        program: String::from_str("xdotool"),
        args,
        stdout: Stream::Inherit,
        stderr: Stream::Inherit,
        environment: true,
    }
}

/// The arguments of the command that records display `display` of `size` as H.264/yuv420p at 30 FPS without audio.
pub open spec fn capture_args(size: Size, display: Seq<char>) -> Seq<ArgView> {
    seq![
        word("-hide_banner"@),
        word("-loglevel"@),
        word("error"@),
        word("-nostdin"@),
        word("-f"@),
        word("x11grab"@),
        word("-draw_mouse"@),
        word("0"@),
        word("-framerate"@),
        word("30"@),
        word("-video_size"@),
        word(size_text(size)),
        word("-i"@),
        word(display),
        word("-an"@),
        word("-c:v"@),
        word("libx264"@),
        word("-crf"@),
        word("18"@),
        word("-preset"@),
        word("veryfast"@),
        word("-pix_fmt"@),
        word("yuv420p"@),
        word("-movflags"@),
        word("+faststart"@),
        word("-stats_period"@),
        word("0.1"@),
        word("-progress"@),
        ArgView::Path(Slot::Progress),
        word("-y"@),
        ArgView::Path(Slot::Output),
    ]
}

/// The command that records display `display` of `size` as H.264/yuv420p at 30 FPS without audio.
pub fn capture_command(size: Size, display: &str) -> (c: CommandLine)
    ensures
        c@.program == "ffmpeg"@,
        c@.args == capture_args(size, display@),
        c@.stdout == StreamView::Null,
        c@.stderr == StreamView::Work("ffmpeg.log"@),
        c@.environment,
{
    let mut args: Vec<Arg> = Vec::new();
    proof {
        assert(args_view(args@) =~= Seq::<ArgView>::empty());
    }
    push_lit(&mut args, "-hide_banner");
    push_lit(&mut args, "-loglevel");
    push_lit(&mut args, "error");
    push_lit(&mut args, "-nostdin");
    push_lit(&mut args, "-f");
    push_lit(&mut args, "x11grab");
    push_lit(&mut args, "-draw_mouse");
    push_lit(&mut args, "0");
    push_lit(&mut args, "-framerate");
    push_lit(&mut args, "30");
    push_lit(&mut args, "-video_size");
    push_owned(&mut args, size.to_string());
    push_lit(&mut args, "-i");
    push_owned(&mut args, String::from_str(display));
    push_lit(&mut args, "-an");
    push_lit(&mut args, "-c:v");
    push_lit(&mut args, "libx264");
    push_lit(&mut args, "-crf");
    push_lit(&mut args, "18");
    push_lit(&mut args, "-preset");
    push_lit(&mut args, "veryfast");
    push_lit(&mut args, "-pix_fmt");
    push_lit(&mut args, "yuv420p");
    push_lit(&mut args, "-movflags");
    push_lit(&mut args, "+faststart");
    push_lit(&mut args, "-stats_period");
    push_lit(&mut args, "0.1");
    push_lit(&mut args, "-progress");
    push_slot(&mut args, Slot::Progress);
    push_lit(&mut args, "-y");
    push_slot(&mut args, Slot::Output);
    proof {
        assert(args_view(args@) =~= capture_args(size, display@));
    }
    CommandLine {
        program: String::from_str("ffmpeg"),
        args,
        stdout: Stream::Null,
        stderr: Stream::Work(String::from_str("ffmpeg.log")),
        environment: true,
    }
}

/// The arguments of the command that checks that a recorded video has packets.
pub open spec fn probe_args() -> Seq<ArgView> {
    seq![
        word("-v"@),
        word("error"@),
        word("-show_entries"@),
        word("format=duration"@),
        word("-of"@),
        word("csv=p=0"@),
        ArgView::Path(Slot::Output),
    ]
}

/// The command that checks that a recorded video has packets.
pub fn probe_command() -> (c: CommandLine)
    ensures
        c@.program == "ffprobe"@,
        c@.args == probe_args(),
        c@.stdout == StreamView::Inherit,
        c@.stderr == StreamView::Inherit,
        c@.environment,
{
    let mut args: Vec<Arg> = Vec::new();
    proof {
        assert(args_view(args@) =~= Seq::<ArgView>::empty());
    }
    push_lit(&mut args, "-v");
    push_lit(&mut args, "error");
    push_lit(&mut args, "-show_entries");
    push_lit(&mut args, "format=duration");
    push_lit(&mut args, "-of");
    push_lit(&mut args, "csv=p=0");
    push_slot(&mut args, Slot::Output);
    proof {
        assert(args_view(args@) =~= probe_args());
    }
    CommandLine {
        program: String::from_str("ffprobe"),
        args,
        stdout: Stream::Inherit,
        stderr: Stream::Inherit,
        environment: true,
    }
}

/// The arguments of the command that saves one frame of display `display` of `size`.
pub open spec fn snapshot_args(size: Size, display: Seq<char>) -> Seq<ArgView> {
    seq![
        word("-hide_banner"@),
        word("-loglevel"@),
        word("error"@),
        word("-nostdin"@),
        word("-f"@),
        word("x11grab"@),
        word("-draw_mouse"@),
        word("0"@),
        word("-video_size"@),
        word(size_text(size)),
        word("-i"@),
        word(display),
        word("-frames:v"@),
        word("1"@),
        word("-y"@),
        ArgView::Path(Slot::Output),
    ]
}

/// The command that saves one frame of display `display` of `size`.
pub fn snapshot_command(size: Size, display: &str) -> (c: CommandLine)
    ensures
        c@.program == "ffmpeg"@,
        c@.args == snapshot_args(size, display@),
        c@.stdout == StreamView::Inherit,
        c@.stderr == StreamView::Inherit,
        c@.environment,
{
    let mut args: Vec<Arg> = Vec::new();
    proof {
        assert(args_view(args@) =~= Seq::<ArgView>::empty());
    }
    push_lit(&mut args, "-hide_banner");
    push_lit(&mut args, "-loglevel");
    push_lit(&mut args, "error");
    push_lit(&mut args, "-nostdin");
    push_lit(&mut args, "-f");
    push_lit(&mut args, "x11grab");
    push_lit(&mut args, "-draw_mouse");
    push_lit(&mut args, "0");
    push_lit(&mut args, "-video_size");
    push_owned(&mut args, size.to_string());
    push_lit(&mut args, "-i");
    push_owned(&mut args, String::from_str(display));
    push_lit(&mut args, "-frames:v");
    push_lit(&mut args, "1");
    push_lit(&mut args, "-y");
    push_slot(&mut args, Slot::Output);
    proof {
        assert(args_view(args@) =~= snapshot_args(size, display@));
    }
    CommandLine {
        program: String::from_str("ffmpeg"),
        args,
        stdout: Stream::Inherit,
        stderr: Stream::Inherit,
        environment: true,
    }
}

/// The arguments of the command that saves the frame of a video at offset `offset` (seconds, as text).
pub open spec fn poster_args(offset: Seq<char>) -> Seq<ArgView> {
    seq![
        word("-hide_banner"@),
        word("-loglevel"@),
        word("error"@),
        word("-nostdin"@),
        word("-ss"@),
        word(offset),
        word("-i"@),
        ArgView::Path(Slot::Input),
        word("-frames:v"@),
        word("1"@),
        word("-y"@),
        ArgView::Path(Slot::Output),
    ]
}

/// The command that saves the frame of a video at offset `offset` (seconds, as text).
pub fn poster_command(offset: &str) -> (c: CommandLine)
    ensures
        c@.program == "ffmpeg"@,
        c@.args == poster_args(offset@),
        c@.stdout == StreamView::Inherit,
        c@.stderr == StreamView::Inherit,
        c@.environment,
{
    let mut args: Vec<Arg> = Vec::new();
    proof {
        assert(args_view(args@) =~= Seq::<ArgView>::empty());
    }
    push_lit(&mut args, "-hide_banner");
    push_lit(&mut args, "-loglevel");
    push_lit(&mut args, "error");
    push_lit(&mut args, "-nostdin");
    push_lit(&mut args, "-ss");
    push_owned(&mut args, String::from_str(offset));
    push_lit(&mut args, "-i");
    push_slot(&mut args, Slot::Input);
    push_lit(&mut args, "-frames:v");
    push_lit(&mut args, "1");
    push_lit(&mut args, "-y");
    push_slot(&mut args, Slot::Output);
    proof {
        assert(args_view(args@) =~= poster_args(offset@));
    }
    CommandLine {
        program: String::from_str("ffmpeg"),
        args,
        stdout: Stream::Inherit,
        stderr: Stream::Inherit,
        environment: true,
    }
}

/// The arguments of the command that exports a video as a looping GIF `width` pixels wide at `fps` frames per second.
pub open spec fn gif_export_args(width: u32, fps: u32) -> Seq<ArgView> {
    seq![
        word("-hide_banner"@),
        word("-loglevel"@),
        word("error"@),
        word("-nostdin"@),
        word("-i"@),
        ArgView::Path(Slot::Input),
        word("-filter_complex"@),
        word(gif_filter(width, fps)),
        word("-loop"@),
        word("0"@),
        word("-y"@),
        ArgView::Path(Slot::Output),
    ]
}

/// The command that exports a video as a looping GIF `width` pixels wide at `fps` frames per second.
pub fn gif_export_command(width: u32, fps: u32) -> (c: CommandLine)
    ensures
        c@.program == "ffmpeg"@,
        c@.args == gif_export_args(width, fps),
        c@.stdout == StreamView::Inherit,
        c@.stderr == StreamView::Inherit,
        c@.environment,
{
    let filter = gif_filter_string(width, fps);
    let mut args: Vec<Arg> = Vec::new();
    proof {
        assert(args_view(args@) =~= Seq::<ArgView>::empty());
    }
    push_lit(&mut args, "-hide_banner");
    push_lit(&mut args, "-loglevel");
    push_lit(&mut args, "error");
    push_lit(&mut args, "-nostdin");
    push_lit(&mut args, "-i");
    push_slot(&mut args, Slot::Input);
    push_lit(&mut args, "-filter_complex");
    push_owned(&mut args, filter);
    push_lit(&mut args, "-loop");
    push_lit(&mut args, "0");
    push_lit(&mut args, "-y");
    push_slot(&mut args, Slot::Output);
    proof {
        assert(args_view(args@) =~= gif_export_args(width, fps));
    }
    CommandLine {
        program: String::from_str("ffmpeg"),
        args,
        stdout: Stream::Inherit,
        stderr: Stream::Inherit,
        environment: true,
    }
}

/// The arguments of the command that presses key chord `chord`.
pub open spec fn key_args(chord: Seq<char>) -> Seq<ArgView> {
    seq![
        word("key"@),
        word("--clearmodifiers"@),
        word(chord),
    ]
}

/// The command that presses key chord `chord`.
pub fn key_command(chord: &str) -> (c: CommandLine)
    ensures
        c@.program == "xdotool"@,
        c@.args == key_args(chord@),
        c@.stdout == StreamView::Inherit,
        c@.stderr == StreamView::Inherit,
        c@.environment,
{
    let mut args: Vec<Arg> = Vec::new();
    proof {
        assert(args_view(args@) =~= Seq::<ArgView>::empty());
    }
    push_lit(&mut args, "key");
    push_lit(&mut args, "--clearmodifiers");
    push_owned(&mut args, String::from_str(chord));
    proof {
        assert(args_view(args@) =~= key_args(chord@));
    }
    CommandLine {
        program: String::from_str("xdotool"),
        args,
        stdout: Stream::Inherit,
        stderr: Stream::Inherit,
        environment: true,
    }
}

/// The arguments of the command that types `text` with `delay_ms` milliseconds between keys.
pub open spec fn type_text_args(text: Seq<char>, delay_ms: u128) -> Seq<ArgView> {
    seq![
        word("type"@),
        word("--delay"@),
        word(decimal(delay_ms as nat)),
        word("--"@),
        word(text),
    ]
}

/// The command that types `text` with `delay_ms` milliseconds between keys.
pub fn type_text_command(text: &str, delay_ms: u128) -> (c: CommandLine)
    ensures
        c@.program == "xdotool"@,
        c@.args == type_text_args(text@, delay_ms),
        c@.stdout == StreamView::Inherit,
        c@.stderr == StreamView::Inherit,
        c@.environment,
{
    let mut args: Vec<Arg> = Vec::new();
    proof {
        assert(args_view(args@) =~= Seq::<ArgView>::empty());
    }
    push_lit(&mut args, "type");
    push_lit(&mut args, "--delay");
    push_owned(&mut args, decimal_string(delay_ms));
    push_lit(&mut args, "--");
    push_owned(&mut args, String::from_str(text));
    proof {
        assert(args_view(args@) =~= type_text_args(text@, delay_ms));
    }
    CommandLine {
        program: String::from_str("xdotool"),
        args,
        stdout: Stream::Inherit,
        stderr: Stream::Inherit,
        environment: true,
    }
}

/// The FFmpeg filter graph of a GIF export: resample to `fps`, scale to
/// `width` keeping the aspect ratio, and dither with a palette of the video.
pub open spec fn gif_filter(width: u32, fps: u32) -> Seq<char> {
    "fps="@ + decimal(fps as nat) + ",scale="@ + decimal(width as nat)
        + ":-1:flags=lanczos,split[a][b];[a]palettegen[p];[b][p]paletteuse=dither=bayer"@
}

fn gif_filter_string(width: u32, fps: u32) -> (s: String)
    ensures
        s@ == gif_filter(width, fps),
{
    let mut s = String::from_str("fps=");
    push_decimal(&mut s, fps as u128);
    push_str(&mut s, ",scale=");
    push_decimal(&mut s, width as u128);
    push_str(&mut s, ":-1:flags=lanczos,split[a][b];[a]palettegen[p];[b][p]paletteuse=dither=bayer");
    s
}

/// Whether a GIF export is accepted: a positive width and 1 to 100 frames per second.
pub open spec fn gif_accepted(width: u32, fps: u32) -> bool {
    width != 0 && 1 <= fps <= 100
}

/// The GIF export command, or the refusal of its parameters.
pub fn gif_command(width: u32, fps: u32) -> (r: Result<CommandLine, Error>)
    ensures
        r is Ok <==> gif_accepted(width, fps),
        r matches Ok(c) ==> c@.program == "ffmpeg"@ && c@.args == gif_export_args(width, fps)
            && c@.stdout == StreamView::Inherit && c@.stderr == StreamView::Inherit && c@.environment,
        r matches Err(e) ==> e@ == ErrorView::Invalid("GIF width must be positive; FPS must be 1..=100"@),
{
    if width == 0 || fps == 0 || fps > 100 {
        return Err(Error::Invalid(String::from_str("GIF width must be positive; FPS must be 1..=100")));
    }
    Ok(gif_export_command(width, fps))
}

/// The file into which FFmpeg reports its progress, in the work directory.
pub fn progress_file() -> (s: String)
    ensures
        s@ == "progress"@,
{
    String::from_str("progress")
}

/// The file into which Xvfb writes its display number, in the work directory.
pub fn display_file() -> (s: String)
    ensures
        s@ == "display"@,
{
    String::from_str("display")
}

/// Where a launched application's output goes: one log for both streams.
pub fn launch_streams() -> (r: (Stream, Stream))
    ensures
        r.0@ == StreamView::Work("app.log"@),
        r.1@ == StreamView::SameAsStdout,
{
    (Stream::Work(String::from_str("app.log")), Stream::SameAsStdout)
}

/// Capture records the whole display at its size, without the mouse pointer,
/// at 30 frames per second, as H.264 in yuv420p, without audio, and overwrites
/// the output path.
pub proof fn law_capture_format(size: Size, display: Seq<char>)
    ensures
        capture_args(size, display)[4] == word("-f"@) && capture_args(size, display)[5] == word("x11grab"@),
        capture_args(size, display)[6] == word("-draw_mouse"@) && capture_args(size, display)[7] == word("0"@),
        capture_args(size, display)[8] == word("-framerate"@) && capture_args(size, display)[9] == word("30"@),
        capture_args(size, display)[10] == word("-video_size"@) && capture_args(size, display)[11] == word(size_text(size)),
        capture_args(size, display)[12] == word("-i"@) && capture_args(size, display)[13] == word(display),
        capture_args(size, display)[14] == word("-an"@),
        capture_args(size, display)[15] == word("-c:v"@) && capture_args(size, display)[16] == word("libx264"@),
        capture_args(size, display)[21] == word("-pix_fmt"@) && capture_args(size, display)[22] == word("yuv420p"@),
        capture_args(size, display)[29] == word("-y"@) && capture_args(size, display).last() == ArgView::Path(Slot::Output),
        capture_args(size, display).len() == 31,
{
}

} // verus!
