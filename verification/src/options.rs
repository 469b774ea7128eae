//! The command line: which options the program takes, and how the
//! arguments are read.
//!
//! The reading itself is done by the `getopts` crate and is not verified.

use vstd::prelude::*;
use vstd::string::*;
use crate::cli::{CommandLine, CommandLineView};
use crate::error::{StartupError, StartupErrorView};

verus! {

/// The place of the size option among the options that take an argument.
pub const SIZE: usize = 0;

/// The place of the rate option among the options that take an argument.
pub const RATE_LIMIT: usize = 1;

/// The place of the buffer option among the options that take an argument.
pub const BUFFER_SIZE: usize = 2;

/// The place of the discard flag among the flags.
pub const DISCARD: usize = 2;

/// One option of the command line.
#[derive(Debug, Clone)]
pub struct OptionSpec {
    /// The name after a single dash: one character.
    pub short: String,
    /// The name after two dashes: more than one character.
    pub long: String,
    /// What the option does, for a usage text.
    pub description: String,
    /// What stands for the argument in a usage text; empty for a flag.
    pub hint: String,
}

/// What was found on a command line: for each option that takes an
/// argument the first argument given to it, for each flag whether it was
/// given, and the arguments that belong to no option.
#[derive(Debug, Clone)]
pub struct Parsed {
    pub values: Vec<Option<String>>,
    pub flags: Vec<bool>,
    pub free: Vec<String>,
}

/// The two names of each option.
pub open spec fn names(options: Seq<OptionSpec>) -> Seq<(Seq<char>, Seq<char>)> {
    options.map_values(|o: OptionSpec| (o.short@, o.long@))
}

/// Whether each pair is a short name of one ASCII character and a long name
/// of more than one.
pub open spec fn well_named(names: Seq<(Seq<char>, Seq<char>)>) -> bool {
    forall|i: int|
        0 <= i < names.len() ==> {
            &&& vstd::utf8::is_ascii_chars((#[trigger] names[i]).0)
            &&& vstd::utf8::is_ascii_chars(names[i].1)
            &&& names[i].0.len() == 1
            &&& names[i].1.len() > 1
        }
}

/// What `getopts` finds on a command line. The first two arguments are the
/// names of the options that take an argument and of the flags, every one
/// of them optional; the third is the command line without the program's
/// name. `None` where the command line is refused; otherwise the values,
/// the flags and the free arguments of a [`Parsed`].
pub uninterp spec fn parsed_options(
    valued: Seq<(Seq<char>, Seq<char>)>,
    flags: Seq<(Seq<char>, Seq<char>)>,
    arguments: Seq<Seq<char>>,
) -> Option<(Seq<Option<Seq<char>>>, Seq<bool>, Seq<Seq<char>>)>;

/// Calls `getopts`: makes an `Options` with `optopt` for each of `valued`
/// and `optflag` for each of `flags`, has it `parse` the arguments, and asks
/// the `Matches` for each option by its short name, with `opt_str` or
/// `opt_present`.
///
/// The contract is believed, not proved. It claims that the outcome depends
/// on the names and the arguments alone, and that there is one value for
/// each option that takes one and one flag for each flag. It asks for names
/// that `getopts` accepts: with others `optopt`, `optflag` and `parse`
/// panic.
#[verifier::external_body]
fn parse_options(valued: &Vec<OptionSpec>, flags: &Vec<OptionSpec>, arguments: &Vec<String>) -> (r:
    Option<Parsed>)
    requires
        well_named(names(valued@)),
        well_named(names(flags@)),
    ensures
        match parsed_options(names(valued@), names(flags@), arguments.deep_view()) {
            Some(found) => r matches Some(p) && p.values.deep_view() == found.0 && p.flags@
                == found.1 && p.free.deep_view() == found.2,
            None => r is None,
        },
        r matches Some(p) ==> p.values@.len() == valued@.len() && p.flags@.len() == flags@.len(),
{
    let mut options = getopts::Options::new();
    for o in valued.iter() {
        options.optopt(&o.short, &o.long, &o.description, &o.hint);
    }
    for o in flags.iter() {
        options.optflag(&o.short, &o.long, &o.description);
    }
    match options.parse(arguments) {
        Ok(m) => Some(Parsed {
            values: valued.iter().map(|o| m.opt_str(&o.short)).collect(),
            flags: flags.iter().map(|o| m.opt_present(&o.short)).collect(),
            free: m.free.clone(),
        }),
        Err(_) => None,
    }
}

/// The names of the options that take an argument: size, rate and buffer.
pub open spec fn valued_names() -> Seq<(Seq<char>, Seq<char>)> {
    seq![("s"@, "size"@), ("L"@, "rate-limit"@), ("B"@, "buffer-size"@)]
}

/// The names of the flags: help, version and discard.
pub open spec fn flag_names() -> Seq<(Seq<char>, Seq<char>)> {
    seq![("h"@, "help"@), ("V"@, "version"@), ("n"@, "discard"@)]
}

/// The command line that the found values, flags and free arguments make:
/// the first free argument is the file, and each option stands at its
/// place. What is missing counts as not given.
pub open spec fn line_of(
    values: Seq<Option<Seq<char>>>,
    flags: Seq<bool>,
    free: Seq<Seq<char>>,
) -> CommandLineView {
    CommandLineView {
        file: if free.len() > 0 {
            Some(free[0])
        } else {
            None
        },
        size: if values.len() > SIZE {
            values[SIZE as int]
        } else {
            None
        },
        rate_limit: if values.len() > RATE_LIMIT {
            values[RATE_LIMIT as int]
        } else {
            None
        },
        buffer_size: if values.len() > BUFFER_SIZE {
            values[BUFFER_SIZE as int]
        } else {
            None
        },
        discard: flags.len() > DISCARD && flags[DISCARD as int],
    }
}

/// An option with the given names and texts.
fn option(short: &str, long: &str, description: &str, hint: &str) -> (o: OptionSpec)
    ensures
        o.short@ == short@,
        o.long@ == long@,
{
    OptionSpec {
        short: String::from_str(short),
        long: String::from_str(long),
        description: String::from_str(description),
        hint: String::from_str(hint),
    }
}

/// The options that take an argument.
pub fn valued_options() -> (options: Vec<OptionSpec>)
    ensures
        names(options@) == valued_names(),
        well_named(valued_names()),
{
    let mut options: Vec<OptionSpec> = Vec::new();
    options.push(option("s", "size", "set estimated data size to SIZE bytes", "SIZE"));
    options.push(option("L", "rate-limit", "limit transfer to RATE bytes per second", "RATE"));
    options.push(option("B", "buffer-size", "use a buffer size of BYTES", "BYTES"));
    proof {
        reveal_strlit("s");
        reveal_strlit("size");
        reveal_strlit("L");
        reveal_strlit("rate-limit");
        reveal_strlit("B");
        reveal_strlit("buffer-size");
        assert(names(options@) =~= valued_names());
    }
    options
}

/// The flags.
pub fn flag_options() -> (options: Vec<OptionSpec>)
    ensures
        names(options@) == flag_names(),
        well_named(flag_names()),
{
    let mut options: Vec<OptionSpec> = Vec::new();
    options.push(option("h", "help", "show this help and exit", ""));
    options.push(option("V", "version", "show version information and exit", ""));
    options.push(
        option("n", "discard", "discard the data instead of writing it to standard output", ""),
    );
    proof {
        reveal_strlit("h");
        reveal_strlit("help");
        reveal_strlit("V");
        reveal_strlit("version");
        reveal_strlit("n");
        reveal_strlit("discard");
        assert(names(options@) =~= flag_names());
    }
    options
}

/// The text at a place among the values, or `None` where nothing is there.
fn value_at(values: &Vec<Option<String>>, place: usize) -> (r: Option<String>)
    ensures
        r.deep_view() == if place < values@.len() {
            values.deep_view()[place as int]
        } else {
            None
        },
{
    if place < values.len() {
        match &values[place] {
            Some(text) => Some(text.clone()),
            None => None,
        }
    } else {
        None
    }
}

/// Makes the command line from what was found; see [`line_of`].
pub fn command_line(parsed: &Parsed) -> (line: CommandLine)
    ensures
        line@ == line_of(parsed.values.deep_view(), parsed.flags@, parsed.free.deep_view()),
{
    let file = if parsed.free.len() > 0 {
        Some(parsed.free[0].clone())
    } else {
        None
    };
    let discard = parsed.flags.len() > DISCARD && parsed.flags[DISCARD];
    CommandLine {
        file,
        size: value_at(&parsed.values, SIZE),
        rate_limit: value_at(&parsed.values, RATE_LIMIT),
        buffer_size: value_at(&parsed.values, BUFFER_SIZE),
        discard,
    }
}

/// Reads the command line, given without the program's name.
///
/// Whether it is accepted, and what is found on it, is what `getopts` says
/// for this program's options; the result is the command line made from
/// that.
pub fn parse_command_line(arguments: &Vec<String>) -> (r: Result<CommandLine, StartupError>)
    ensures
        match parsed_options(valued_names(), flag_names(), arguments.deep_view()) {
            Some(found) => r matches Ok(line) && line@ == line_of(found.0, found.1, found.2),
            None => r matches Err(e) && e@ == StartupErrorView::Usage,
        },
{
    let valued = valued_options();
    let flags = flag_options();
    match parse_options(&valued, &flags, arguments) {
        Some(parsed) => Ok(command_line(&parsed)),
        None => Err(StartupError::Usage),
    }
}

} // verus!
