//! The one-shot command line: `WIDTH HEIGHT SECONDS OUTPUT.mp4 CLASS COMMAND [ARGS...]`.
use vstd::prelude::*;
use crate::error::{Error, ErrorView};
use crate::size::{Size, valid_dimensions};
use crate::text::{parse_u32, parse_u32_spec, push_str};

verus! {

/// One command-line argument: its text when it is valid Unicode, and how
/// reports show it.
pub struct CliArg {
    pub text: Option<String>,
    pub shown: String,
}

pub struct CliArgView {
    pub text: Option<Seq<char>>,
    pub shown: Seq<char>,
}

impl View for CliArg {
    type V = CliArgView;

    open spec fn view(&self) -> CliArgView {
        CliArgView {
            text: match self.text {
                Some(t) => Some(t@),
                None => None,
            },
            shown: self.shown@,
        }
    }
}

pub open spec fn cli_view(args: Seq<CliArg>) -> Seq<CliArgView> {
    args.map_values(|a: CliArg| a@)
}

/// What the program is asked to do.
#[derive(Clone, Copy, Debug, PartialEq, Eq, Structural)]
pub enum Mode {
    Help,
    Version,
    Record,
}

/// Help without arguments or when the first is `--help`; the version when the
/// only argument is `--version`; else a recording.
pub open spec fn mode_of(args: Seq<CliArgView>) -> Mode {
    if args.len() == 0 || args[0].text == Some("--help"@) {
        Mode::Help
    } else if args.len() == 1 && args[0].text == Some("--version"@) {
        Mode::Version
    } else {
        Mode::Record
    }
}

fn str_eq(a: &str, b: &str) -> (r: bool)
    ensures
        r == (a@ == b@),
{
    let n = a.unicode_len();
    if n != b.unicode_len() {
        return false;
    }
    let mut i: usize = 0;
    while i < n
        invariant
            n == a@.len(),
            n == b@.len(),
            i <= n,
            forall|k: int| 0 <= k < i ==> a@[k] == b@[k],
        decreases n - i,
    {
        if a.get_char(i) != b.get_char(i) {
            return false;
        }
        i = i + 1;
    }
    assert(a@ =~= b@);
    true
}

fn arg_is(arg: &CliArg, word: &str) -> (r: bool)
    ensures
        r == (arg@.text == Some(word@)),
{
    match &arg.text {
        Some(t) => str_eq(t.as_str(), word),
        None => false,
    }
}

pub fn cli_mode(args: &Vec<CliArg>) -> (m: Mode)
    ensures
        m == mode_of(cli_view(args@)),
{
    if args.len() == 0 || arg_is(&args[0], "--help") {
        Mode::Help
    } else if args.len() == 1 && arg_is(&args[0], "--version") {
        Mode::Version
    } else {
        Mode::Record
    }
}

/// A recording that the command line asks for. The video path is argument 3,
/// the application command argument 5 and its arguments those after it.
pub struct CliPlan {
    pub size: Size,
    pub seconds: u32,
    pub class: String,
}

/// An unsigned integer argument, or its refusal.
pub open spec fn number_arg(a: CliArgView) -> Result<u32, ErrorView> {
    match a.text {
        Some(t) => match parse_u32_spec(t) {
            Some(n) => Ok(n),
            None => Err(ErrorView::Invalid("invalid unsigned integer: "@ + a.shown)),
        },
        None => Err(ErrorView::Invalid("invalid unsigned integer: "@ + a.shown)),
    }
}

fn number(a: &CliArg) -> (r: Result<u32, Error>)
    ensures
        match r {
            Ok(n) => number_arg(a@) == Ok::<u32, ErrorView>(n),
            Err(e) => number_arg(a@) == Err::<u32, ErrorView>(e@),
        },
{
    let parsed = match &a.text {
        Some(t) => parse_u32(t.as_str()),
        None => None,
    };
    match parsed {
        Some(n) => Ok(n),
        None => {
            let mut m = String::from_str("invalid unsigned integer: ");
            push_str(&mut m, a.shown.as_str());
            Err(Error::Invalid(m))
        },
    }
}

/// The recording that a command line asks for, checked in the order width,
/// height, dimensions, duration, class: the first refusal wins.
pub open spec fn plan_of(args: Seq<CliArgView>) -> Result<(u32, u32, u32, Seq<char>), ErrorView> {
    if args.len() < 6 {
        Err(ErrorView::Invalid("expected WIDTH HEIGHT SECONDS OUTPUT.mp4 CLASS COMMAND [ARGS...]"@))
    } else if number_arg(args[0]) is Err {
        Err(number_arg(args[0])->Err_0)
    } else if number_arg(args[1]) is Err {
        Err(number_arg(args[1])->Err_0)
    } else if !valid_dimensions(number_arg(args[0])->Ok_0, number_arg(args[1])->Ok_0) {
        Err(ErrorView::Invalid("display dimensions must be positive and even"@))
    } else if number_arg(args[2]) is Err {
        Err(number_arg(args[2])->Err_0)
    } else if number_arg(args[2])->Ok_0 == 0 {
        Err(ErrorView::Invalid("duration must be positive"@))
    } else if args[4].text is None {
        Err(ErrorView::Invalid("class must be UTF-8"@))
    } else {
        Ok((number_arg(args[0])->Ok_0, number_arg(args[1])->Ok_0, number_arg(args[2])->Ok_0, args[4].text->0))
    }
}

pub fn cli_plan(args: &Vec<CliArg>) -> (r: Result<CliPlan, Error>)
    ensures
        match r {
            Ok(p) => plan_of(cli_view(args@)) == Ok::<(u32, u32, u32, Seq<char>), ErrorView>(
                (p.size.spec_width(), p.size.spec_height(), p.seconds, p.class@)),
            Err(e) => plan_of(cli_view(args@)) == Err::<(u32, u32, u32, Seq<char>), ErrorView>(e@),
        },
{
    if args.len() < 6 {
        return Err(Error::Invalid(String::from_str(
            "expected WIDTH HEIGHT SECONDS OUTPUT.mp4 CLASS COMMAND [ARGS...]",
        )));
    }
    let width = number(&args[0])?;
    let height = number(&args[1])?;
    let size = Size::new(width, height)?;
    let seconds = number(&args[2])?;
    if seconds == 0 {
        return Err(Error::Invalid(String::from_str("duration must be positive")));
    }
    match &args[4].text {
        Some(class) => Ok(CliPlan { size, seconds, class: class.clone() }),
        None => Err(Error::Invalid(String::from_str("class must be UTF-8"))),
    }
}

} // verus!
