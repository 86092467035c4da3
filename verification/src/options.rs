//! Command-line options, defined and matched by the `getopts` crate.
//!
//! The code of `getopts` is not verified. This module declares the types of
//! the crate that the library passes on, gives names to what they hold and
//! to what its functions return, and states of each function that the
//! library calls what its source shows. These statements are taken on trust;
//! everything else in the library is proved from them.

use vstd::prelude::*;
use vstd::utf8::is_ascii_chars;

verus! {

/// `getopts::Options`: the options that a program accepts. Opaque here.
#[verifier::external_type_specification]
#[verifier::external_body]
pub struct ExOptions(getopts::Options);

/// `getopts::Matches`: what parsing found in the arguments. Opaque here.
#[verifier::external_type_specification]
#[verifier::external_body]
pub struct ExMatches(getopts::Matches);

/// `getopts::Fail`: why the arguments could not be parsed. Opaque here.
#[verifier::external_type_specification]
#[verifier::external_body]
pub struct ExFail(getopts::Fail);

/// The options that `options` holds, in the order in which they were added:
/// of each its short name, its long name, its description, the hint for its
/// argument, and whether it takes an argument.
pub uninterp spec fn definitions(options: getopts::Options) -> Seq<
    (Seq<char>, Seq<char>, Seq<char>, Seq<char>, bool),
>;

/// Whether `options` is as `Options::new` made it but for options added by
/// `optopt` and `optflag`: it parses in the default style, and each of its
/// options may be left out and may stand once.
pub uninterp spec fn plain(options: getopts::Options) -> bool;

/// What `Options::parse` returns for the arguments `args` where plain
/// options hold `definitions`.
pub uninterp spec fn parse_outcome(
    definitions: Seq<(Seq<char>, Seq<char>, Seq<char>, Seq<char>, bool)>,
    args: Seq<Seq<char>>,
) -> Result<getopts::Matches, getopts::Fail>;

/// What `matches` holds under each name by which an option can be asked for:
/// one entry for each time that the option stood among the arguments, with
/// the argument that it was given there, if any.
pub uninterp spec fn occurrences(matches: getopts::Matches) -> Map<
    Seq<char>,
    Seq<Option<Seq<char>>>,
>;

/// The arguments in `matches` that belong to no option, in their order.
pub uninterp spec fn free_arguments(matches: getopts::Matches) -> Seq<Seq<char>>;

/// The message by which `fail` describes itself.
pub uninterp spec fn fail_text(fail: getopts::Fail) -> Seq<char>;

/// What `Options::usage` returns under the heading `brief` where plain
/// options hold `definitions`.
pub uninterp spec fn usage_text(
    definitions: Seq<(Seq<char>, Seq<char>, Seq<char>, Seq<char>, bool)>,
    brief: Seq<char>,
) -> Seq<char>;

/// Names that `getopts` takes for an option without panicking: a short name
/// that is empty or one ASCII character, and a long name that is not a single
/// character. (`getopts` asks for a short name of at most one byte and for a
/// long name that is empty or longer than one byte, which these are.)
pub open spec fn accepted_names(short: Seq<char>, long: Seq<char>) -> bool {
    &&& short.len() <= 1
    &&& is_ascii_chars(short)
    &&& long.len() != 1
}

/// Whether each of the options has a short or a long name.
pub open spec fn all_named(
    definitions: Seq<(Seq<char>, Seq<char>, Seq<char>, Seq<char>, bool)>,
) -> bool {
    forall|i: int|
        0 <= i < definitions.len() ==> (#[trigger] definitions[i]).0.len() + definitions[i].1.len()
            > 0
}

/// The names by which one of the options can be asked for: the short and
/// the long names that are not empty.
pub open spec fn option_names(
    definitions: Seq<(Seq<char>, Seq<char>, Seq<char>, Seq<char>, bool)>,
) -> Set<Seq<char>> {
    Set::new(
        |name: Seq<char>|
            name.len() > 0 && exists|i: int|
                0 <= i < definitions.len() && ((#[trigger] definitions[i]).0 == name
                    || definitions[i].1 == name),
    )
}

/// The argument that an option was given where it first stood, if it stood
/// anywhere and was given one there.
pub open spec fn first_argument(found: Seq<Option<Seq<char>>>) -> Option<Seq<char>> {
    if found.len() > 0 {
        found[0]
    } else {
        None
    }
}

/// `Options::new`: plain options that hold none.
#[verifier::external_body]
pub(crate) fn no_options() -> (options: getopts::Options)
    ensures
        definitions(options) == Seq::<(Seq<char>, Seq<char>, Seq<char>, Seq<char>, bool)>::empty(),
        plain(options),
{
    getopts::Options::new()
}

/// `Options::optopt`: adds an option that may be left out, may stand once
/// and takes an argument; nothing else changes. It panics on names that are
/// not accepted.
#[verifier::external_body]
pub(crate) fn add_option(
    options: &mut getopts::Options,
    short: &str,
    long: &str,
    description: &str,
    hint: &str,
)
    requires
        accepted_names(short@, long@),
    ensures
        definitions(*final(options)) == definitions(*old(options)).push(
            (short@, long@, description@, hint@, true),
        ),
        plain(*final(options)) == plain(*old(options)),
{
    options.optopt(short, long, description, hint);
}

/// `Options::optflag`: adds an option that may be left out, may stand once
/// and takes no argument; it is stored with an empty hint, and nothing else
/// changes. It panics on names that are not accepted.
#[verifier::external_body]
pub(crate) fn add_flag(options: &mut getopts::Options, short: &str, long: &str, description: &str)
    requires
        accepted_names(short@, long@),
    ensures
        definitions(*final(options)) == definitions(*old(options)).push(
            (short@, long@, description@, Seq::<char>::empty(), false),
        ),
        plain(*final(options)) == plain(*old(options)),
{
    options.optflag(short, long, description);
}

/// `Options::parse`: matches `args` against the options. For plain options
/// the outcome depends on what they hold and on the arguments alone. What it
/// finds can be asked for by the names of the options and by no other. It
/// panics on an option that has no name.
#[verifier::external_body]
pub(crate) fn parse(options: &getopts::Options, args: &Vec<String>) -> (outcome: Result<
    getopts::Matches,
    getopts::Fail,
>)
    requires
        plain(*options),
        all_named(definitions(*options)),
    ensures
        outcome == parse_outcome(definitions(*options), args.deep_view()),
        outcome matches Ok(matches) ==> occurrences(matches).dom() == option_names(
            definitions(*options),
        ),
{
    options.parse(args)
}

/// `Matches::opt_present`: whether the option stood among the arguments. It
/// panics on a name that belongs to no option.
#[verifier::external_body]
pub(crate) fn is_present(matches: &getopts::Matches, name: &str) -> (present: bool)
    requires
        occurrences(*matches).dom().contains(name@),
    ensures
        present == (occurrences(*matches)[name@].len() > 0),
{
    matches.opt_present(name)
}

/// `Matches::opt_str`: the argument that the option was given where it first
/// stood. It panics on a name that belongs to no option.
#[verifier::external_body]
pub(crate) fn argument_of(matches: &getopts::Matches, name: &str) -> (argument: Option<String>)
    requires
        occurrences(*matches).dom().contains(name@),
    ensures
        argument.deep_view() == first_argument(occurrences(*matches)[name@]),
{
    matches.opt_str(name)
}

/// The field `free` of `Matches`: the arguments that belong to no option.
#[verifier::external_body]
pub(crate) fn free_of(matches: &getopts::Matches) -> (free: Vec<String>)
    ensures
        free.deep_view() == free_arguments(*matches),
{
    matches.free.clone()
}

/// `Fail`'s `to_string`: the message of the failure, which depends on the
/// failure alone.
#[verifier::external_body]
pub(crate) fn message_of(fail: &getopts::Fail) -> (message: String)
    ensures
        message@ == fail_text(*fail),
{
    fail.to_string()
}

/// `Options::usage`: the usage text, `brief` and then a line for each
/// option. For plain options it depends on what they hold and on `brief`
/// alone.
#[verifier::external_body]
pub(crate) fn usage_of(options: &getopts::Options, brief: &str) -> (usage: String)
    requires
        plain(*options),
    ensures
        usage@ == usage_text(definitions(*options), brief@),
{
    options.usage(brief)
}

} // verus!
