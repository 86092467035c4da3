//! The command line of the banner program: from its arguments to what the
//! program writes and the status it ends with.
//!
//! Nothing here reads or writes. A caller hands over the arguments that the
//! program was started with, and writes out the [`Output`] it gets back.

use vstd::prelude::*;
use vstd::string::*;

use crate::banner::{banner, get_comment};
use crate::language::{
    fallback_notice, identifiers, is_registered, resolve, resolved, shell_style,
    supported_languages,
};
use crate::length::{length_value, parse_length};
use crate::options::{
    add_flag, add_option, all_named, argument_of, definitions, fail_text, first_argument,
    free_arguments, free_of, is_present, message_of, no_options, occurrences, option_names, parse,
    parse_outcome, plain, usage_of, usage_text,
};
use crate::text::same_text;

verus! {

/// What the program is asked to do.
#[derive(Debug)]
pub enum Command {
    /// Print the usage text.
    Help,
    /// List the known languages.
    List,
    /// Print a banner.
    Banner { language: String, length: usize, comment: String },
}

/// The mathematical content of a [`Command`].
pub enum CommandView {
    Help,
    List,
    Banner { language: Seq<char>, length: nat, comment: Seq<char> },
}

impl View for Command {
    type V = CommandView;

    open spec fn view(&self) -> CommandView {
        match self {
            Command::Help => CommandView::Help,
            Command::List => CommandView::List,
            Command::Banner { language, length, comment } => CommandView::Banner {
                language: language@,
                length: *length as nat,
                comment: comment@,
            },
        }
    }
}

/// Why the program does nothing of what it could be asked to do.
#[derive(Debug)]
pub enum UsageError {
    /// The arguments do not fit the options; the message says why.
    Arguments(String),
    /// The text given as the length is no length.
    Length(String),
}

/// The mathematical content of a [`UsageError`].
pub enum UsageErrorView {
    Arguments(Seq<char>),
    Length(Seq<char>),
}

impl View for UsageError {
    type V = UsageErrorView;

    open spec fn view(&self) -> UsageErrorView {
        match self {
            UsageError::Arguments(message) => UsageErrorView::Arguments(message@),
            UsageError::Length(text) => UsageErrorView::Length(text@),
        }
    }
}

/// What the program writes, and the status with which it ends.
#[derive(Debug)]
pub struct Output {
    /// What goes to standard output.
    pub stdout: String,
    /// What goes to the diagnostic stream.
    pub stderr: String,
    /// The exit status.
    pub status: i32,
}

/// The mathematical content of an [`Output`].
pub struct OutputView {
    pub stdout: Seq<char>,
    pub stderr: Seq<char>,
    pub status: int,
}

impl View for Output {
    type V = OutputView;

    open spec fn view(&self) -> OutputView {
        OutputView { stdout: self.stdout@, stderr: self.stderr@, status: self.status as int }
    }
}

/// The mathematical content of a command or of the reason why there is none.
pub open spec fn view_of(asked: Result<Command, UsageError>) -> Result<
    CommandView,
    UsageErrorView,
> {
    match asked {
        Ok(command) => Ok(command@),
        Err(error) => Err(error@),
    }
}

/// The language that stands for "list the languages" instead of naming one.
pub open spec fn list_sentinel() -> Seq<char> {
    "_"@
}

/// The width that the options ask for: 80 where they name none, and nothing
/// where what they name is no width that the machine can hold.
pub open spec fn width_for(length: Option<Seq<char>>) -> Option<nat> {
    match length {
        Some(text) => match length_value(text) {
            Some(n) if n <= usize::MAX => Some(n),
            _ => None,
        },
        None => Some(80nat),
    }
}

/// What the options and free arguments of a command line ask for, where
/// `count` arguments were given in all. Help comes first, then a length that
/// cannot be read; the languages are listed where the only argument is `ls`,
/// or where the language is the sentinel. The language is `shell` where the
/// options name none, and the comment is the first free argument.
pub open spec fn command_for(
    help: bool,
    language: Option<Seq<char>>,
    length: Option<Seq<char>>,
    free: Seq<Seq<char>>,
    count: nat,
) -> Result<CommandView, UsageErrorView> {
    let language = match language {
        Some(name) => name,
        None => "shell"@,
    };
    let comment = if free.len() > 0 {
        free[0]
    } else {
        Seq::empty()
    };
    if help {
        Ok(CommandView::Help)
    } else if width_for(length) is None {
        Err(UsageErrorView::Length(length->0))
    } else if (comment == "ls"@ && count == 1) || language == list_sentinel() {
        Ok(CommandView::List)
    } else {
        Ok(CommandView::Banner { language, length: width_for(length)->0, comment })
    }
}

/// The heading of the usage text for a program called `program`.
pub open spec fn brief(program: Seq<char>) -> Seq<char> {
    "usage: "@ + program + " [options] [COMMENT]"@
}

/// The usage text of the options, and a line on `ls` below it.
pub open spec fn help_text(usage: Seq<char>) -> Seq<char> {
    usage + "\n     ls \t\tList all supported languages\n"@
}

/// Each of `items` on a line of its own.
pub open spec fn lines(items: Seq<Seq<char>>) -> Seq<char>
    decreases items.len(),
{
    if items.len() == 0 {
        Seq::empty()
    } else {
        lines(items.drop_last()) + items.last() + seq!['\n']
    }
}

/// What the program writes for `command`, where `usage` is the usage text of
/// its options: the usage goes to the diagnostic stream, the list and the
/// banner to standard output. A banner for a language that is not known is
/// in shell style, and a notice of that goes to the diagnostic stream.
pub open spec fn response(command: CommandView, usage: Seq<char>) -> OutputView {
    match command {
        CommandView::Help => OutputView {
            stdout: Seq::empty(),
            stderr: help_text(usage),
            status: 0,
        },
        CommandView::List => OutputView {
            stdout: lines(identifiers()),
            stderr: Seq::empty(),
            status: 0,
        },
        CommandView::Banner { language, length, comment } => OutputView {
            stdout: banner(resolved(language), length, comment),
            stderr: if is_registered(language) {
                Seq::empty()
            } else {
                fallback_notice(language) + seq!['\n']
            },
            status: 0,
        },
    }
}

/// What the program writes where it gives up: for arguments that do not fit
/// the options the message and the usage text, for a length that cannot be
/// read a line that shows it; the status is 1.
pub open spec fn refusal(error: UsageErrorView, usage: Seq<char>) -> OutputView {
    match error {
        UsageErrorView::Arguments(message) => OutputView {
            stdout: Seq::empty(),
            stderr: message + seq!['\n'] + help_text(usage),
            status: 1,
        },
        UsageErrorView::Length(text) => OutputView {
            stdout: Seq::empty(),
            stderr: "invalid length: "@ + text + seq!['\n'],
            status: 1,
        },
    }
}

/// What the program writes for what was asked of it, or for the reason why
/// it gives up.
pub open spec fn report(
    asked: Result<CommandView, UsageErrorView>,
    usage: Seq<char>,
) -> OutputView {
    match asked {
        Ok(command) => response(command, usage),
        Err(error) => refusal(error, usage),
    }
}

/// Decides what a command line asks for. `help`, `language` and `length`
/// are what its options gave, `free` its other arguments, and `count` the
/// number of arguments in all.
pub fn decide(
    help: bool,
    language: Option<String>,
    length: Option<String>,
    free: &Vec<String>,
    count: usize,
) -> (asked: Result<Command, UsageError>)
    ensures
        view_of(asked) == command_for(
            help,
            language.deep_view(),
            length.deep_view(),
            free.deep_view(),
            count as nat,
        ),
{
    if help {
        return Ok(Command::Help);
    }
    let language = match language {
        Some(name) => name,
        None => "shell".to_owned(),
    };
    let length = match length {
        Some(text) => match parse_length(text.as_str()) {
            Some(n) => n,
            None => {
                return Err(UsageError::Length(text));
            },
        },
        None => 80,
    };
    let comment = if free.len() > 0 {
        free[0].clone()
    } else {
        String::new()
    };
    if (same_text(comment.as_str(), "ls") && count == 1) || same_text(language.as_str(), "_") {
        Ok(Command::List)
    } else {
        Ok(Command::Banner { language, length, comment })
    }
}

/// The options of the banner program: `-l` or `--language` and `-L` or
/// `--length`, which take an argument, and `-h` or `--help`, which takes
/// none. No option has a hint for its argument.
pub open spec fn program_options() -> Seq<(Seq<char>, Seq<char>, Seq<char>, Seq<char>, bool)> {
    seq![
        ("l"@, "language"@, "Programing language (default: shell)"@, Seq::empty(), true),
        ("L"@, "length"@, "Comment length (default: 80)"@, Seq::empty(), true),
        ("h"@, "help"@, "Print help menu"@, Seq::empty(), false),
    ]
}

/// Whether `options` holds what the program asks its arguments for: the
/// options are plain, each has a name, and `h`, `language` and `length` are
/// among the names.
pub open spec fn serves_program(options: getopts::Options) -> bool {
    &&& plain(options)
    &&& all_named(definitions(options))
    &&& option_names(definitions(options)).contains("h"@)
    &&& option_names(definitions(options)).contains("language"@)
    &&& option_names(definitions(options)).contains("length"@)
}

/// What the arguments `args` ask for, where the program accepts the options
/// `accepted`.
pub open spec fn asked_by(
    accepted: Seq<(Seq<char>, Seq<char>, Seq<char>, Seq<char>, bool)>,
    args: Seq<Seq<char>>,
) -> Result<CommandView, UsageErrorView> {
    match parse_outcome(accepted, args) {
        Err(fail) => Err(UsageErrorView::Arguments(fail_text(fail))),
        Ok(matches) => command_for(
            occurrences(matches)["h"@].len() > 0,
            first_argument(occurrences(matches)["language"@]),
            first_argument(occurrences(matches)["length"@]),
            free_arguments(matches),
            args.len(),
        ),
    }
}

/// What a program that accepts the options `accepted`, started as `program`
/// with the arguments `args`, writes and how it ends.
pub open spec fn outcome(
    accepted: Seq<(Seq<char>, Seq<char>, Seq<char>, Seq<char>, bool)>,
    program: Seq<char>,
    args: Seq<Seq<char>>,
) -> OutputView {
    report(asked_by(accepted, args), usage_text(accepted, brief(program)))
}

/// Appends the usage text and the line on `ls` to `text`.
fn push_help(text: &mut String, usage: &str)
    ensures
        final(text)@ == old(text)@ + help_text(usage@),
{
    text.append(usage);
    text.append("\n     ls \t\tList all supported languages\n");
    assert(text@ =~= old(text)@ + help_text(usage@));
}

/// The known languages, each on a line of its own.
fn listing() -> (text: String)
    ensures
        text@ == lines(identifiers()),
{
    let names = supported_languages();
    let mut text = String::new();
    let mut i: usize = 0;
    assert(identifiers().take(0) =~= Seq::<Seq<char>>::empty());
    while i < names.len()
        invariant
            i <= names@.len(),
            names.deep_view() == identifiers(),
            text@ == lines(identifiers().take(i as int)),
        decreases names@.len() - i,
    {
        proof {
            reveal_strlit("\n");
            let longer = identifiers().take(i + 1);
            assert(longer.drop_last() =~= identifiers().take(i as int));
            assert(lines(longer.drop_last()) + names@[i as int]@ + "\n"@ =~= lines(longer));
        }
        text.append(names[i]);
        text.append("\n");
        i += 1;
    }
    assert(identifiers().take(i as int) =~= identifiers());
    text
}

/// What the program writes for `command`, and the status it ends with;
/// `usage` is the usage text of its options.
pub fn respond(command: &Command, usage: &str) -> (output: Output)
    ensures
        output@ == response(command@, usage@),
{
    let mut stdout = String::new();
    let mut stderr = String::new();
    match command {
        Command::Help => {
            push_help(&mut stderr, usage);
            assert(stderr@ =~= help_text(usage@));
        },
        Command::List => {
            stdout = listing();
        },
        Command::Banner { language, length, comment } => {
            let resolution = resolve(language.as_str());
            match resolution.notice {
                Some(notice) => {
                    proof {
                        reveal_strlit("\n");
                    }
                    stderr.append(notice.as_str());
                    stderr.append("\n");
                    assert(stderr@ =~= fallback_notice(language@) + seq!['\n']);
                },
                None => {},
            }
            stdout = get_comment(resolution.syntax, *length, comment.as_str());
        },
    }
    Output { stdout, stderr, status: 0 }
}

/// What the program writes where it gives up because of `error`; `usage` is
/// the usage text of its options.
pub fn refuse(error: &UsageError, usage: &str) -> (output: Output)
    ensures
        output@ == refusal(error@, usage@),
{
    let mut stderr = String::new();
    proof {
        reveal_strlit("\n");
    }
    match error {
        UsageError::Arguments(message) => {
            stderr.append(message.as_str());
            stderr.append("\n");
            push_help(&mut stderr, usage);
            assert(stderr@ =~= message@ + seq!['\n'] + help_text(usage@));
        },
        UsageError::Length(text) => {
            stderr.append("invalid length: ");
            stderr.append(text.as_str());
            stderr.append("\n");
            assert(stderr@ =~= "invalid length: "@ + text@ + seq!['\n']);
        },
    }
    Output { stdout: String::new(), stderr, status: 1 }
}

/// The options that the program accepts: a language, a length, and help.
pub fn options() -> (options: getopts::Options)
    ensures
        definitions(options) == program_options(),
        serves_program(options),
{
    let mut options = no_options();
    proof {
        reveal_strlit("l");
        reveal_strlit("L");
        reveal_strlit("h");
        reveal_strlit("language");
        reveal_strlit("length");
        reveal_strlit("help");
        reveal_strlit("");
        assert(""@ =~= Seq::<char>::empty());
    }
    add_option(&mut options, "l", "language", "Programing language (default: shell)", "");
    add_option(&mut options, "L", "length", "Comment length (default: 80)", "");
    add_flag(&mut options, "h", "help", "Print help menu");
    proof {
        assert(definitions(options) =~= program_options());
        assert(program_options()[2].0 == "h"@);
        assert(program_options()[0].1 == "language"@);
        assert(program_options()[1].1 == "length"@);
    }
    options
}

/// Reads `args` with `options` and decides what they ask for.
pub fn read(options: &getopts::Options, args: &Vec<String>) -> (asked: Result<Command, UsageError>)
    requires
        serves_program(*options),
    ensures
        view_of(asked) == asked_by(definitions(*options), args.deep_view()),
{
    match parse(options, args) {
        Err(fail) => Err(UsageError::Arguments(message_of(&fail))),
        Ok(matches) => {
            let help = is_present(&matches, "h");
            let language = argument_of(&matches, "language");
            let length = argument_of(&matches, "length");
            let free = free_of(&matches);
            decide(help, language, length, &free, args.len())
        },
    }
}

/// The usage text of `options` for a program called `program`.
pub fn usage(options: &getopts::Options, program: &str) -> (text: String)
    requires
        plain(*options),
    ensures
        text@ == usage_text(definitions(*options), brief(program@)),
{
    let mut heading = String::new();
    heading.append("usage: ");
    heading.append(program);
    heading.append(" [options] [COMMENT]");
    assert(heading@ =~= brief(program@));
    usage_of(options, heading.as_str())
}

/// Reads `args` with `options` and gives what the program, started as
/// `program`, writes for them.
pub fn interpret(options: &getopts::Options, program: &str, args: &Vec<String>) -> (output: Output)
    requires
        serves_program(*options),
    ensures
        output@ == outcome(definitions(*options), program@, args.deep_view()),
{
    let text = usage(options, program);
    match read(options, args) {
        Ok(command) => respond(&command, text.as_str()),
        Err(error) => refuse(&error, text.as_str()),
    }
}

/// What the program, started as `program` with the arguments `args`, writes
/// and how it ends.
pub fn run(program: &str, args: &Vec<String>) -> (output: Output)
    ensures
        output@ == outcome(program_options(), program@, args.deep_view()),
{
    let options = options();
    interpret(&options, program, args)
}

/// A banner for a language that is not known is in shell style, and the
/// notice that names the language goes to the diagnostic stream, not to
/// standard output; the program still ends with status 0.
pub proof fn lemma_unknown_language_is_reported(
    language: Seq<char>,
    length: nat,
    comment: Seq<char>,
    usage: Seq<char>,
)
    requires
        !is_registered(language),
    ensures
        ({
            let output = response(CommandView::Banner { language, length, comment }, usage);
            &&& output.stdout == banner(shell_style(), length, comment)
            &&& output.stderr == "language `"@ + language
                + "` not found, defaults to shell style"@ + seq!['\n']
            &&& output.status == 0
        }),
{
}

/// A banner for a known language leaves the diagnostic stream empty.
pub proof fn lemma_known_language_is_silent(
    language: Seq<char>,
    length: nat,
    comment: Seq<char>,
    usage: Seq<char>,
)
    requires
        is_registered(language),
    ensures
        ({
            let output = response(CommandView::Banner { language, length, comment }, usage);
            &&& output.stdout == banner(resolved(language), length, comment)
            &&& output.stderr == Seq::<char>::empty()
            &&& output.status == 0
        }),
{
}

} // verus!
