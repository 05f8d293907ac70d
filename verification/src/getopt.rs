//! The `getopts` crate as this library uses it: its types, names for what
//! its functions return, and one small function around each call. Nothing
//! in this file is proved; each contract says what the crate's source shows.

use getopts::{Fail, Matches, Options, ParsingStyle};
use vstd::prelude::*;
use vstd::utf8::*;

verus! {

#[verifier::external_type_specification]
#[verifier::external_body]
pub struct ExOptions(getopts::Options);

#[verifier::external_type_specification]
#[verifier::external_body]
pub struct ExMatches(getopts::Matches);

#[verifier::external_type_specification]
#[verifier::external_body]
pub struct ExFail(getopts::Fail);

/// The flags that `opts` holds, in the order in which they were added, each
/// as its short name, its long name and its description. `None` where `opts`
/// holds any option that is not an optional flag without argument, or takes
/// long options behind a single dash.
pub uninterp spec fn flag_table(opts: Options) -> Option<Seq<(Seq<char>, Seq<char>, Seq<char>)>>;

/// Whether `opts` takes everything from the first free argument on as free.
pub uninterp spec fn stops_at_first_free(opts: Options) -> bool;

/// What `Options::parse` returns for options that hold the flags `table`
/// alone, with the given parsing style, on the arguments `args`.
pub uninterp spec fn parse_result(
    table: Seq<(Seq<char>, Seq<char>, Seq<char>)>,
    stop_at_first_free: bool,
    args: Seq<Seq<char>>,
) -> Result<Matches, Fail>;

/// Whether the options that `matches` came from hold an option of this name.
pub uninterp spec fn defined_in(matches: Matches, name: Seq<char>) -> bool;

/// What `Matches::opt_present` returns for an option that is defined:
/// whether it was given on the command line.
pub uninterp spec fn present_in(matches: Matches, name: Seq<char>) -> bool;

/// The free arguments of `matches`, in the order of the command line.
pub uninterp spec fn free_of(matches: Matches) -> Seq<Seq<char>>;

/// The part of what `Options::short_usage` returns that lists the flags
/// `table`, each in its brackets.
pub uninterp spec fn flags_summary(table: Seq<(Seq<char>, Seq<char>, Seq<char>)>) -> Seq<char>;

/// The part of what `Options::usage` returns that describes the flags
/// `table`: one row or more for each flag, with line feeds between the rows.
pub uninterp spec fn usage_rows(table: Seq<(Seq<char>, Seq<char>, Seq<char>)>) -> Seq<char>;

/// What `Fail`'s `Display` impl writes for `fail`.
pub uninterp spec fn fail_message(fail: Fail) -> Seq<char>;

/// Whether every flag of `table` has a name, short or long. `Options::parse`
/// panics on a flag without any.
pub open spec fn all_named(table: Seq<(Seq<char>, Seq<char>, Seq<char>)>) -> bool {
    forall|i: int| 0 <= i < table.len() ==> (#[trigger] table[i]).0.len() + table[i].1.len() > 0
}

/// `Options::new`: options that hold no flag yet and let flags and free
/// arguments mix.
#[verifier::external_body]
pub(crate) fn new_options() -> (opts: Options)
    ensures
        flag_table(opts) == Some(Seq::<(Seq<char>, Seq<char>, Seq<char>)>::empty()),
        !stops_at_first_free(opts),
{
    Options::new()
}

/// `Options::parsing_style`: sets the parsing style and leaves the flags as
/// they are.
#[verifier::external_body]
pub(crate) fn set_stop_at_first_free(opts: &mut Options, stop: bool)
    ensures
        stops_at_first_free(*final(opts)) == stop,
        flag_table(*final(opts)) == flag_table(*old(opts)),
{
    opts.parsing_style(
        if stop {
            ParsingStyle::StopAtFirstFree
        } else {
            ParsingStyle::FloatingFrees
        },
    );
}

/// `Options::optflag`: adds one optional flag without argument behind those
/// that are there, and leaves the parsing style as it is. The crate panics
/// on a short name of more than one byte and on a long name of one byte.
#[verifier::external_body]
pub(crate) fn add_flag(opts: &mut Options, short_name: &str, long_name: &str, desc: &str)
    requires
        short_name@.len() <= 1,
        is_ascii_chars(short_name@),
        long_name@.len() != 1,
    ensures
        flag_table(*final(opts)) == match flag_table(*old(opts)) {
            Some(table) => Some(table.push((short_name@, long_name@, desc@))),
            None => None,
        },
        stops_at_first_free(*final(opts)) == stops_at_first_free(*old(opts)),
{
    opts.optflag(short_name, long_name, desc);
}

/// `Options::parse`: the result depends on the flags, the parsing style and
/// the arguments alone. On success every long name of more than one
/// character that the options hold is defined in the matches.
#[verifier::external_body]
pub(crate) fn parse(opts: &Options, args: Vec<String>) -> (res: Result<Matches, Fail>)
    requires
        flag_table(*opts) is Some,
        all_named(flag_table(*opts)->0),
    ensures
        res == parse_result(
            flag_table(*opts)->0,
            stops_at_first_free(*opts),
            args.deep_view(),
        ),
        res matches Ok(matches) ==> forall|i: int|
            0 <= i < flag_table(*opts)->0.len() && (#[trigger] flag_table(*opts)->0[i]).1.len() > 1
                ==> defined_in(matches, flag_table(*opts)->0[i].1),
{
    opts.parse(args)
}

/// `Matches::opt_present`: whether the option was given. The crate panics
/// on a name that the options do not hold.
#[verifier::external_body]
pub(crate) fn opt_present(matches: &Matches, name: &str) -> (res: bool)
    requires
        defined_in(*matches, name@),
    ensures
        res == present_in(*matches, name@),
{
    matches.opt_present(name)
}

/// The public field `free` of `Matches`, moved out.
#[verifier::external_body]
pub(crate) fn into_free(matches: Matches) -> (res: Vec<String>)
    ensures
        res.deep_view() == free_of(matches),
{
    matches.free
}

/// `Options::short_usage`: the word `Usage:`, the program name, and the
/// list of the flags, with one space between each two.
#[verifier::external_body]
pub(crate) fn short_usage(opts: &Options, program_name: &str) -> (res: String)
    requires
        flag_table(*opts) is Some,
    ensures
        res@ == "Usage: "@ + program_name@ + " "@ + flags_summary(flag_table(*opts)->0),
{
    opts.short_usage(program_name)
}

/// `Options::usage`: the heading `brief`, an empty line, the line
/// `Options:`, the rows of the flags, and a line feed at the end.
#[verifier::external_body]
pub(crate) fn usage(opts: &Options, brief: &str) -> (res: String)
    requires
        flag_table(*opts) is Some,
    ensures
        res@ == brief@ + "\n\nOptions:\n"@ + usage_rows(flag_table(*opts)->0) + "\n"@,
{
    opts.usage(brief)
}

/// `Fail`'s `Display` impl, through `to_string`: the message of a failure.
#[verifier::external_body]
pub(crate) fn fail_text(fail: &Fail) -> (res: String)
    ensures
        res@ == fail_message(*fail),
{
    fail.to_string()
}

} // verus!
