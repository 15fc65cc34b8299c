//! The command line: its commands, its errors and the exit status.

use vstd::prelude::*;
use vstd::string::StringExecFns;
use vstd::std_specs::convert::FromSpecImpl;
use crate::arguments::{
    fault, fault_of, lexed, new_parser, next_arg, parser_tokens, texts, unexpected,
    ArgumentFault, CliArg,
};
use crate::check::{CheckError, InputSource};

verus! {

/// The name the program goes by where its command line gives none.
pub const PACKAGE_NAME: &'static str = "noemoji";

/// The version that the program reports.
pub const PACKAGE_VERSION: &'static str = "0.1.0";

/// Why a command line was refused.
#[derive(Debug)]
pub enum CliError {
    /// Unknown option was provided
    UnknownOption(String),
    /// Option requires a value but none was provided
    MissingOptionValue(String),
    /// Unexpected positional argument found
    UnexpectedArgument(String),
    /// Option had a value when none was expected
    UnexpectedValue {
        /// The option that received an unexpected value
        option: String,
        /// The unexpected value that was provided
        value: String,
    },
    /// Invalid UTF-8 in argument value
    InvalidUtf8Value(String),
    /// No files were specified but files are required
    NoFilesSpecified,
    /// An error of the parser that this command line cannot bring about
    InternalError(lexopt::Error),
}

/// What the program is asked to do.
#[derive(Debug, PartialEq, Clone)]
pub enum CliCommand {
    /// Show help information
    Help,
    /// Show version information
    Version,
    /// Check inputs for characters that should be ASCII
    Check {
        /// Input sources to check, in order of processing
        inputs: Vec<InputSource>,
    },
}

/// The error that reports what the parser's error says. A missing value
/// without its option, and the errors that only other uses of the parser
/// bring about, are passed on whole.
pub open spec fn cli_error_of(shape: ArgumentFault, error: lexopt::Error) -> CliError {
    match shape {
        ArgumentFault::UnexpectedOption(option) => CliError::UnknownOption(option),
        ArgumentFault::MissingValue(Some(option)) => CliError::MissingOptionValue(option),
        ArgumentFault::UnexpectedArgument(arg) => CliError::UnexpectedArgument(arg),
        ArgumentFault::UnexpectedValue { option, value } => CliError::UnexpectedValue {
            option,
            value,
        },
        ArgumentFault::NonUnicodeValue(value) => CliError::InvalidUtf8Value(value),
        ArgumentFault::MissingValue(None) => CliError::InternalError(error),
        ArgumentFault::Other => CliError::InternalError(error),
    }
}

impl CliError {
    /// Whether `text` is what this error says.
    pub open spec fn says(self, text: String) -> bool {
        match self {
            CliError::UnknownOption(option) => text@ == "unknown option '"@ + option@ + "'"@,
            CliError::MissingOptionValue(option) => text@ == "option '"@ + option@
                + "' requires a value"@,
            CliError::UnexpectedArgument(arg) => text@ == "unexpected argument '"@ + arg@ + "'"@,
            CliError::UnexpectedValue { option, value } => text@ == "option '"@ + option@
                + "' doesn't take a value"@,
            CliError::InvalidUtf8Value(value) => text@ == "invalid UTF-8 in argument: "@ + value@,
            CliError::NoFilesSpecified => text@ == "no files specified"@,
            CliError::InternalError(e) => exists|inner: String| #[trigger]
                vstd::string::to_string_from_display_ensures::<lexopt::Error>(&e, inner) && text@
                    == "internal error (please report this bug): "@ + inner@,
        }
    }

    /// What the error says, for a reader.
    pub fn message(&self) -> (text: String)
        ensures
            self.says(text),
    {
        match self {
            CliError::UnknownOption(option) => {
                let mut text = String::from_str("unknown option '");
                text.append(option.as_str());
                text.append("'");
                text
            },
            CliError::MissingOptionValue(option) => {
                let mut text = String::from_str("option '");
                text.append(option.as_str());
                text.append("' requires a value");
                text
            },
            CliError::UnexpectedArgument(arg) => {
                let mut text = String::from_str("unexpected argument '");
                text.append(arg.as_str());
                text.append("'");
                text
            },
            CliError::UnexpectedValue { option, value } => {
                let mut text = String::from_str("option '");
                text.append(option.as_str());
                text.append("' doesn't take a value");
                text
            },
            CliError::InvalidUtf8Value(value) => {
                let mut text = String::from_str("invalid UTF-8 in argument: ");
                text.append(value.as_str());
                text
            },
            CliError::NoFilesSpecified => String::from_str("no files specified"),
            CliError::InternalError(e) => {
                let mut text = String::from_str("internal error (please report this bug): ");
                let inner = e.to_string();
                text.append(inner.as_str());
                text
            },
        }
    }

    /// Makes the error for a parser's error from what that error says.
    pub fn from_fault(shape: ArgumentFault, error: lexopt::Error) -> (e: CliError)
        ensures
            e == cli_error_of(shape, error),
    {
        match shape {
            ArgumentFault::UnexpectedOption(option) => CliError::UnknownOption(option),
            ArgumentFault::MissingValue(Some(option)) => CliError::MissingOptionValue(option),
            ArgumentFault::UnexpectedArgument(arg) => CliError::UnexpectedArgument(arg),
            ArgumentFault::UnexpectedValue { option, value } => CliError::UnexpectedValue {
                option,
                value,
            },
            ArgumentFault::NonUnicodeValue(value) => CliError::InvalidUtf8Value(value),
            ArgumentFault::MissingValue(None) => CliError::InternalError(error),
            ArgumentFault::Other => CliError::InternalError(error),
        }
    }
}

impl From<lexopt::Error> for CliError {
    fn from(error: lexopt::Error) -> (e: CliError) {
        let shape = fault(&error);
        CliError::from_fault(shape, error)
    }
}

impl FromSpecImpl<lexopt::Error> for CliError {
    open spec fn obeys_from_spec() -> bool {
        true
    }

    open spec fn from_spec(error: lexopt::Error) -> CliError {
        cli_error_of(fault_of(error), error)
    }
}

/// Whether a piece of the command line asks for help: `-h` or `--help`.
pub open spec fn asks_help(arg: CliArg) -> bool {
    match arg {
        CliArg::Short(c) => c == 'h',
        CliArg::Long(name) => name@ == "help"@,
        CliArg::Value(_) => false,
    }
}

/// Whether a piece of the command line asks for the version: `-V` or
/// `--version`.
pub open spec fn asks_version(arg: CliArg) -> bool {
    match arg {
        CliArg::Short(c) => c == 'V',
        CliArg::Long(name) => name@ == "version"@,
        CliArg::Value(_) => false,
    }
}

/// An option as it was written on the command line.
pub open spec fn option_text(arg: CliArg) -> Seq<char> {
    match arg {
        CliArg::Short(c) => seq!['-', c],
        CliArg::Long(name) => seq!['-', '-'] + name@,
        CliArg::Value(_) => Seq::empty(),
    }
}

/// Whether `parsed` is what the pieces of a command line come to, after
/// `inputs` have been gathered from the pieces before them. The first
/// option decides: help, the version, or an error for any other; so does
/// the first error of the parser. Positional arguments are gathered in
/// their order, and a command line that ends without any is refused.
pub open spec fn parses_to(
    tokens: Seq<Result<CliArg, lexopt::Error>>,
    inputs: Seq<InputSource>,
    parsed: Result<CliCommand, CliError>,
) -> bool
    decreases tokens.len(),
{
    if tokens.len() == 0 {
        if inputs.len() == 0 {
            parsed == Err::<CliCommand, CliError>(CliError::NoFilesSpecified)
        } else {
            parsed matches Ok(CliCommand::Check { inputs: given }) && given@ == inputs
        }
    } else {
        match tokens[0] {
            Err(e) => parsed == Err::<CliCommand, CliError>(cli_error_of(fault_of(e), e)),
            Ok(CliArg::Value(path)) => parses_to(
                tokens.drop_first(),
                inputs.push(InputSource::File(path)),
                parsed,
            ),
            Ok(arg) => if asks_help(arg) {
                parsed == Ok::<CliCommand, CliError>(CliCommand::Help)
            } else if asks_version(arg) {
                parsed == Ok::<CliCommand, CliError>(CliCommand::Version)
            } else {
                parsed matches Err(CliError::UnknownOption(text)) && text@ == option_text(arg)
            },
        }
    }
}

/// Splits a command line into its pieces.
pub fn lex_args(args: &[String]) -> (tokens: Vec<Result<CliArg, lexopt::Error>>)
    ensures
        tokens@ == lexed(texts(args@)),
{
    let mut parser = new_parser(args);
    let mut tokens: Vec<Result<CliArg, lexopt::Error>> = Vec::new();
    loop
        invariant
            tokens@ + parser_tokens(parser) == lexed(texts(args@)),
        decreases parser_tokens(parser).len(),
    {
        let ghost before = parser_tokens(parser);
        let token = match next_arg(&mut parser) {
            Ok(None) => {
                assert(tokens@ + before =~= tokens@);
                return tokens;
            },
            Ok(Some(arg)) => Ok(arg),
            Err(e) => Err(e),
        };
        tokens.push(token);
        assert(tokens@ + parser_tokens(parser) =~= (tokens@.drop_last() + before)) by {
            assert(before =~= seq![before[0]] + before.drop_first());
        }
    }
}

/// Tells what an option asks for.
fn option_command(arg: CliArg) -> (parsed: Result<CliCommand, CliError>)
    requires
        !(arg is Value),
    ensures
        if asks_help(arg) {
            parsed == Ok::<CliCommand, CliError>(CliCommand::Help)
        } else if asks_version(arg) {
            parsed == Ok::<CliCommand, CliError>(CliCommand::Version)
        } else {
            parsed matches Err(CliError::UnknownOption(text)) && text@ == option_text(arg)
        },
{
    let help = match &arg {
        CliArg::Short(c) => *c == 'h',
        CliArg::Long(name) => *name == String::from_str("help"),
        CliArg::Value(_) => false,
    };
    let version = match &arg {
        CliArg::Short(c) => *c == 'V',
        CliArg::Long(name) => *name == String::from_str("version"),
        CliArg::Value(_) => false,
    };
    if help {
        Ok(CliCommand::Help)
    } else if version {
        Ok(CliCommand::Version)
    } else {
        let error = unexpected(arg);
        let shape = fault(&error);
        Err(CliError::from_fault(shape, error))
    }
}

/// Reads a command from the pieces of a command line.
pub fn command_from_tokens(tokens: Vec<Result<CliArg, lexopt::Error>>) -> (parsed: Result<
    CliCommand,
    CliError,
>)
    ensures
        parses_to(tokens@, Seq::empty(), parsed),
{
    let ghost all = tokens@;
    let mut inputs: Vec<InputSource> = Vec::new();
    let ghost mut seen: int = 0;
    assert(all.skip(0) =~= all);
    for token in iter: tokens
        invariant
            iter.seq() == all,
            seen == iter.index(),
            forall|parsed: Result<CliCommand, CliError>| #[trigger]
                parses_to(all.skip(seen), inputs@, parsed) ==> parses_to(
                    all,
                    Seq::empty(),
                    parsed,
                ),
    {
        let ghost rest = all.skip(seen);
        let ghost gathered = inputs@;
        assert(rest[0] == token);
        assert(rest.drop_first() =~= all.skip(seen + 1));
        proof {
            seen = seen + 1;
        }
        match token {
            Err(e) => {
                let shape = fault(&e);
                let parsed = Err(CliError::from_fault(shape, e));
                assert(parses_to(rest, gathered, parsed));
                return parsed;
            },
            Ok(CliArg::Value(path)) => {
                inputs.push(InputSource::File(path));
                assert forall|parsed: Result<CliCommand, CliError>| #[trigger]
                    parses_to(rest.drop_first(), inputs@, parsed) implies parses_to(
                    all,
                    Seq::empty(),
                    parsed,
                ) by {
                    assert(parses_to(rest, gathered, parsed));
                }
            },
            Ok(arg) => {
                let parsed = option_command(arg);
                assert(parses_to(rest, gathered, parsed));
                return parsed;
            },
        }
    }
    let ghost gathered = inputs@;
    let parsed = if inputs.len() == 0 {
        Err(CliError::NoFilesSpecified)
    } else {
        Ok(CliCommand::Check { inputs })
    };
    assert(parses_to(all.skip(seen), gathered, parsed));
    parsed
}

/// Parses the arguments of the program, given without its name: `-h` or
/// `--help`, `-V` or `--version`, or the files to check.
pub fn parse_args(args: &[String]) -> (parsed: Result<CliCommand, CliError>)
    ensures
        parses_to(lexed(texts(args@)), Seq::empty(), parsed),
{
    command_from_tokens(lex_args(args))
}

/// How a run ended, as the exit status tells it.
#[derive(Debug, Clone, Copy, PartialEq, Eq, Structural)]
pub enum Outcome {
    /// All files are compliant, no violations found
    Success,
    /// One or more files contain violations
    Violations,
    /// Error reading or processing files
    Error,
}

impl Outcome {
    /// The exit status: 0 for success, 1 for violations, 2 for an error.
    pub open spec fn status(self) -> u8 {
        match self {
            Outcome::Success => 0,
            Outcome::Violations => 1,
            Outcome::Error => 2,
        }
    }

    /// The exit status of the process for this outcome.
    pub fn exit_status(self) -> (status: u8)
        ensures
            status == self.status(),
    {
        match self {
            Outcome::Success => 0,
            Outcome::Violations => 1,
            Outcome::Error => 2,
        }
    }

    /// The outcome of a run from what the check of each input gave: an
    /// error where any input failed, else violations where any input had
    /// one, else success.
    pub fn of_checks(checks: &Vec<Result<bool, CheckError>>) -> (outcome: Outcome)
        ensures
            outcome == if exists|i: int| 0 <= i < checks@.len() && (#[trigger] checks@[i]) is Err {
                Outcome::Error
            } else if exists|i: int|
                0 <= i < checks@.len() && #[trigger] checks@[i] == Ok::<bool, CheckError>(true) {
                Outcome::Violations
            } else {
                Outcome::Success
            },
    {
        let mut has_errors = false;
        let mut has_violations = false;
        let mut at: usize = 0;
        while at < checks.len()
            invariant
                at <= checks@.len(),
                has_errors == exists|i: int| 0 <= i < at && (#[trigger] checks@[i]) is Err,
                has_violations == exists|i: int|
                    0 <= i < at && #[trigger] checks@[i] == Ok::<bool, CheckError>(true),
            decreases checks@.len() - at,
        {
            match &checks[at] {
                Ok(found) => {
                    if *found {
                        has_violations = true;
                    }
                },
                Err(_) => {
                    has_errors = true;
                },
            }
            at = at + 1;
        }
        if has_errors {
            Outcome::Error
        } else if has_violations {
            Outcome::Violations
        } else {
            Outcome::Success
        }
    }
}

/// The last component of a path, as `Path::file_name` of std finds it on
/// the platform that the library is built for; `None` where the path has
/// none, as one that ends in `..` or is a root.
pub uninterp spec fn file_name_of(path: Seq<char>) -> Option<Seq<char>>;

/// Calls `Path::file_name` on the text taken as a path. The result depends
/// on the text alone, so it is named: `file_name_of`.
#[verifier::external_body]
fn file_name(path: &str) -> (name: Option<&str>)
    ensures
        match name {
            Some(file) => file_name_of(path@) == Some(file@),
            None => file_name_of(path@) is None,
        },
{
    match std::path::Path::new(path).file_name() {
        Some(name) => name.to_str(),
        None => None,
    }
}

/// The name to go by, given the file name found in the program's path.
pub fn name_or_default<'a>(found: Option<&'a str>) -> (name: &'a str)
    ensures
        name@ == match found {
            Some(file) => file@,
            None => PACKAGE_NAME@,
        },
{
    match found {
        Some(file) => file,
        None => PACKAGE_NAME,
    }
}

/// The name of the program from the path it was started by: the file name
/// of that path, or the package's name where the path has none.
pub fn program_name(arg0: &str) -> (name: &str)
    ensures
        name@ == match file_name_of(arg0@) {
            Some(file) => file,
            None => PACKAGE_NAME@,
        },
{
    name_or_default(file_name(arg0))
}

} // verus!
