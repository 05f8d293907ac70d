//! What the command line asks for, and how it is read.

use crate::buffer::{batch, build_buffer, BUFSIZE};
use crate::getopt::{
    add_flag, all_named, fail_message, fail_text, flag_table, flags_summary, free_of, into_free,
    new_options, opt_present, parse, parse_result, present_in, set_stop_at_first_free,
    short_usage, stops_at_first_free, usage, usage_rows,
};
use getopts::{Fail, Options};
use vstd::prelude::*;
use vstd::string::*;

verus! {

/// Version of this tool.
pub const VERSION: &'static str = "0.1.0";

/// Name of this tool.
pub const NAME: &'static str = "yes";

/// A description of this tool.
pub const DESCRIPTION: &'static str =
    "Repeats a given string and a newline character infinitely on stdout.";

/// The string to repeat where the command line gives none.
pub const DEFAULT_STRING: &'static str = "y";

/// What the tool has been asked to do.
#[derive(Debug, PartialEq)]
pub enum Request {
    /// Write the given string and a newline, over and over.
    RepeatString(String),
    /// Print the help text.
    ShowHelp,
    /// Print the version.
    ShowVersion,
}

/// A request as a mathematical value.
pub enum RequestView {
    RepeatString(Seq<char>),
    ShowHelp,
    ShowVersion,
}

impl View for Request {
    type V = RequestView;

    open spec fn view(&self) -> RequestView {
        match self {
            Request::RepeatString(s) => RequestView::RepeatString(s@),
            Request::ShowHelp => RequestView::ShowHelp,
            Request::ShowVersion => RequestView::ShowVersion,
        }
    }
}

/// What can go wrong in this tool.
#[derive(Debug, PartialEq)]
pub enum Error {
    /// The command line holds an option that the tool does not know.
    InvalidOption(Fail),
}

/// What the resolution reads of a parsed command line.
#[derive(Debug, PartialEq)]
pub struct Parsed {
    /// Whether the help flag was given.
    pub help: bool,
    /// Whether the version flag was given.
    pub version: bool,
    /// The free arguments, in order.
    pub free: Vec<String>,
}

/// What a request leads to, once the output is at hand.
#[derive(Debug, PartialEq)]
pub enum Action {
    /// Print this text and a newline, once.
    Print(String),
    /// Write this batch until a write fails.
    Repeat(String),
}

/// An action as a mathematical value.
pub enum ActionView {
    Print(Seq<char>),
    Repeat(Seq<char>),
}

impl View for Action {
    type V = ActionView;

    open spec fn view(&self) -> ActionView {
        match self {
            Action::Print(text) => ActionView::Print(text@),
            Action::Repeat(data) => ActionView::Repeat(data@),
        }
    }
}

/// The parts, with one space between each two.
pub open spec fn joined(parts: Seq<Seq<char>>) -> Seq<char>
    decreases parts.len(),
{
    if parts.len() == 0 {
        Seq::empty()
    } else if parts.len() == 1 {
        parts[0]
    } else {
        joined(parts.drop_last()) + seq![' '] + parts.last()
    }
}

/// The request that a parsed command line stands for: help before version,
/// version before repeating; the free arguments joined by spaces, or the
/// default string where there are none.
pub open spec fn request_for(help: bool, version: bool, free: Seq<Seq<char>>) -> RequestView {
    if help {
        RequestView::ShowHelp
    } else if version {
        RequestView::ShowVersion
    } else if free.len() == 0 {
        RequestView::RepeatString(DEFAULT_STRING@)
    } else {
        RequestView::RepeatString(joined(free))
    }
}

/// The two flags of the tool, as the option parser holds them.
pub open spec fn standard_flags() -> Seq<(Seq<char>, Seq<char>, Seq<char>)> {
    seq![
        ("h"@, "help"@, "display help text and exit"@),
        ("v"@, "version"@, "output version information and exit"@),
    ]
}

/// The request that the arguments stand for, or the parser's failure.
pub open spec fn resolution(args: Seq<Seq<char>>) -> Result<RequestView, Fail> {
    match parse_result(standard_flags(), true, args) {
        Ok(matches) => Ok(
            request_for(
                present_in(matches, "help"@),
                present_in(matches, "version"@),
                free_of(matches),
            ),
        ),
        Err(fail) => Err(fail),
    }
}

/// The version line.
pub open spec fn version_line() -> Seq<char> {
    NAME@ + " version "@ + VERSION@
}

/// The heading of the help text: the usage line with the program name, the
/// flags and the string argument, an empty line, and the description.
pub open spec fn help_heading() -> Seq<char> {
    "Usage: "@ + NAME@ + " "@ + flags_summary(standard_flags()) + " [STRING]"@ + "\n\n"@
        + DESCRIPTION@
}

/// The help text: the heading, an empty line, and under `Options:` the rows
/// of the two flags.
pub open spec fn help_page() -> Seq<char> {
    help_heading() + "\n\nOptions:\n"@ + usage_rows(standard_flags()) + "\n"@
}

impl Error {
    /// The message of the error: the parser's own.
    pub open spec fn message_spec(&self) -> Seq<char> {
        match self {
            Error::InvalidOption(fail) => fail_message(*fail),
        }
    }

    /// Returns the message of the error.
    pub fn message(&self) -> (res: String)
        ensures
            res@ == self.message_spec(),
    {
        match self {
            Error::InvalidOption(fail) => fail_text(fail),
        }
    }
}

/// Joins the parts with one space between each two.
pub fn join_with_spaces(parts: &Vec<String>) -> (res: String)
    ensures
        res@ == joined(parts.deep_view()),
{
    let mut out = String::new();
    let mut i: usize = 0;
    while i < parts.len()
        invariant
            i <= parts.len(),
            out@ == joined(parts.deep_view().take(i as int)),
        decreases parts.len() - i,
    {
        let ghost before = parts.deep_view().take(i as int);
        let ghost after = parts.deep_view().take(i + 1);
        proof {
            assert(after.drop_last() =~= before);
            assert(after.last() == parts[i as int]@);
        }
        if i > 0 {
            out.append(" ");
            proof {
                reveal_strlit(" ");
                assert(" "@ =~= seq![' ']);
            }
        }
        out.append(parts[i].as_str());
        proof {
            if i == 0 {
                assert(out@ =~= parts[i as int]@);
            } else {
                assert(out@ =~= joined(before) + seq![' '] + parts[i as int]@);
            }
        }
        i += 1;
    }
    proof {
        assert(parts.deep_view().take(parts.len() as int) =~= parts.deep_view());
    }
    out
}

/// Resolves a parsed command line into the request it stands for.
pub fn resolve(parsed: Parsed) -> (req: Request)
    ensures
        req@ == request_for(parsed.help, parsed.version, parsed.free.deep_view()),
{
    if parsed.help {
        return Request::ShowHelp;
    }
    if parsed.version {
        return Request::ShowVersion;
    }
    let string = if parsed.free.is_empty() {
        DEFAULT_STRING.to_owned()
    } else {
        join_with_spaces(&parsed.free)
    };
    Request::RepeatString(string)
}

/// The options of the tool: the help flag and the version flag, with
/// everything from the first free argument on taken as free.
fn options() -> (opts: Options)
    ensures
        flag_table(opts) == Some(standard_flags()),
        stops_at_first_free(opts),
{
    let mut opts = new_options();
    set_stop_at_first_free(&mut opts, true);
    proof {
        reveal_strlit("h");
        reveal_strlit("v");
        reveal_strlit("help");
        reveal_strlit("version");
    }
    add_flag(&mut opts, "h", "help", "display help text and exit");
    add_flag(&mut opts, "v", "version", "output version information and exit");
    proof {
        assert(flag_table(opts)->0 =~= standard_flags());
    }
    opts
}

/// Reads the command line. The arguments go to the option parser; its
/// failure comes back as `InvalidOption`, and what it found is resolved
/// into a request.
pub fn parse_args(args: Vec<String>) -> (res: Result<Request, Error>)
    ensures
        match res {
            Ok(req) => resolution(args.deep_view()) == Ok::<RequestView, Fail>(req@),
            Err(err) => resolution(args.deep_view()) is Err && err == Error::InvalidOption(
                resolution(args.deep_view())->Err_0,
            ),
        },
{
    let opts = options();
    proof {
        reveal_strlit("h");
        reveal_strlit("v");
        reveal_strlit("help");
        reveal_strlit("version");
        assert(all_named(standard_flags()));
        assert(standard_flags()[0].1 == "help"@);
        assert(standard_flags()[1].1 == "version"@);
    }
    match parse(&opts, args) {
        Err(fail) => Err(Error::InvalidOption(fail)),
        Ok(matches) => {
            let help = opt_present(&matches, "help");
            let version = opt_present(&matches, "version");
            let free = into_free(matches);
            Ok(resolve(Parsed { help, version, free }))
        },
    }
}

/// Builds the help text from the name of the tool, its description and its
/// options.
pub fn help_text() -> (res: String)
    ensures
        res@ == help_page(),
{
    let opts = options();
    let mut brief = short_usage(&opts, NAME);
    brief.append(" [STRING]");
    brief.append("\n\n");
    brief.append(DESCRIPTION);
    usage(&opts, brief.as_str())
}

/// Builds the version line: the name, the word `version`, the version.
pub fn version_text() -> (res: String)
    ensures
        res@ == version_line(),
{
    let mut line = NAME.to_owned();
    line.append(" version ");
    line.append(VERSION);
    line
}

impl Request {
    /// The text that the request shows as.
    pub open spec fn text(&self) -> Seq<char> {
        match self {
            Request::ShowHelp => help_page(),
            Request::ShowVersion => version_line(),
            Request::RepeatString(s) => s@,
        }
    }

    /// What carrying out the request comes to.
    pub open spec fn action_spec(&self) -> ActionView {
        match self {
            Request::RepeatString(s) => ActionView::Repeat(batch(s@, BUFSIZE as nat)),
            _ => ActionView::Print(self.text()),
        }
    }

    /// Returns the request as text: the help text, the version line, or the
    /// string to repeat.
    pub fn to_string(&self) -> (res: String)
        ensures
            res@ == self.text(),
    {
        match self {
            Request::ShowHelp => help_text(),
            Request::ShowVersion => version_text(),
            Request::RepeatString(s) => s.clone(),
        }
    }

    /// Says what is to be done for the request: a text to print once, or the
    /// batch to write until a write fails.
    pub fn action(&self) -> (res: Action)
        ensures
            res@ == self.action_spec(),
    {
        match self {
            Request::RepeatString(s) => Action::Repeat(build_buffer(s.as_str(), BUFSIZE)),
            _ => Action::Print(self.to_string()),
        }
    }
}

} // verus!
