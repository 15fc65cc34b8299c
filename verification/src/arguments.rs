//! The command line as the `lexopt` crate splits it.
//!
//! Nothing here is proved: each item states what the crate's parser is
//! taken to do, and the command-line rules are proved against these
//! statements.

use vstd::prelude::*;

verus! {

/// The crate's parser: the arguments not yet handed out, and where it
/// stands in the one at hand.
#[verifier::external_type_specification]
#[verifier::external_body]
pub struct ExParser(lexopt::Parser);

/// The crate's error.
#[verifier::external_type_specification]
#[verifier::external_body]
pub struct ExArgumentError(lexopt::Error);

/// One piece of a command line.
#[derive(Debug)]
pub enum CliArg {
    /// A short option, such as `-q`, without the dash
    Short(char),
    /// A long option, such as `--verbose`, without the dashes
    Long(String),
    /// A positional argument
    Value(std::path::PathBuf),
}

/// What an error of the parser says, with its texts as strings.
#[derive(Debug)]
pub enum ArgumentFault {
    /// An option wants a value and has none; the option, where known
    MissingValue(Option<String>),
    /// An option that is not known
    UnexpectedOption(String),
    /// A positional argument where none is taken
    UnexpectedArgument(String),
    /// An option that takes no value was given one
    UnexpectedValue {
        /// The option
        option: String,
        /// The value
        value: String,
    },
    /// A value that is no valid Unicode
    NonUnicodeValue(String),
    /// Any other error
    Other,
}

/// What the calls of `Parser::next` on a parser return, one after the
/// other, up to the first that reports the end of the command line.
pub uninterp spec fn parser_tokens(parser: lexopt::Parser) -> Seq<Result<CliArg, lexopt::Error>>;

/// What the calls of `Parser::next` return on a parser that
/// `Parser::from_args` made of these arguments.
pub uninterp spec fn lexed(args: Seq<Seq<char>>) -> Seq<Result<CliArg, lexopt::Error>>;

/// What an error says.
pub uninterp spec fn fault_of(error: lexopt::Error) -> ArgumentFault;

/// The text of each argument.
pub open spec fn texts(args: Seq<String>) -> Seq<Seq<char>> {
    Seq::new(args.len(), |i: int| args[i]@)
}

/// Calls `Parser::from_args`, which takes the arguments without the
/// program's name before them.
#[verifier::external_body]
pub(crate) fn new_parser(args: &[String]) -> (parser: lexopt::Parser)
    ensures
        parser_tokens(parser) == lexed(texts(args@)),
{
    lexopt::Parser::from_args(args.iter().map(|s| s.as_str()))
}

/// Whether `token` is the first of `before` and `after` is what follows it.
pub open spec fn handed_out(
    before: Seq<Result<CliArg, lexopt::Error>>,
    token: Result<CliArg, lexopt::Error>,
    after: Seq<Result<CliArg, lexopt::Error>>,
) -> bool {
    before.len() > 0 && before[0] == token && after == before.drop_first()
}

/// Calls `Parser::next`, which hands out the next piece, an error, or
/// `None` at the end of the command line, and from then on `None` again.
#[verifier::external_body]
pub(crate) fn next_arg(parser: &mut lexopt::Parser) -> (next: Result<Option<CliArg>, lexopt::Error>)
    ensures
        match next {
            Ok(None) => parser_tokens(*old(parser)).len() == 0 && parser_tokens(*final(parser)).len()
                == 0,
            Ok(Some(arg)) => handed_out(
                parser_tokens(*old(parser)),
                Ok(arg),
                parser_tokens(*final(parser)),
            ),
            Err(e) => handed_out(parser_tokens(*old(parser)), Err(e), parser_tokens(*final(parser))),
        },
{
    Ok(match parser.next()? {
        None => None,
        Some(lexopt::Arg::Short(c)) => Some(CliArg::Short(c)),
        Some(lexopt::Arg::Long(name)) => Some(CliArg::Long(name.to_owned())),
        Some(lexopt::Arg::Value(value)) => Some(CliArg::Value(std::path::PathBuf::from(value))),
    })
}

/// Calls `Arg::unexpected`, which makes the error for an option that is
/// not known, `-` or `--` before its name, and passes a positional argument
/// on as one that is not taken.
#[verifier::external_body]
pub(crate) fn unexpected(arg: CliArg) -> (error: lexopt::Error)
    ensures
        match arg {
            CliArg::Short(c) => fault_of(error) matches ArgumentFault::UnexpectedOption(text)
                && text@ == seq!['-', c],
            CliArg::Long(name) => fault_of(error) matches ArgumentFault::UnexpectedOption(text)
                && text@ == seq!['-', '-'] + name@,
            CliArg::Value(_) => fault_of(error) is UnexpectedArgument,
        },
{
    match arg {
        CliArg::Short(c) => lexopt::Arg::Short(c).unexpected(),
        CliArg::Long(name) => lexopt::Arg::Long(&name).unexpected(),
        CliArg::Value(path) => lexopt::Arg::Value(path.into_os_string()).unexpected(),
    }
}

/// Reads an error's variant and its texts; a text that is no valid Unicode
/// is given as `to_string_lossy` shows it.
#[verifier::external_body]
pub(crate) fn fault(error: &lexopt::Error) -> (shape: ArgumentFault)
    ensures
        shape == fault_of(*error),
{
    match error {
        lexopt::Error::MissingValue { option } => ArgumentFault::MissingValue(option.clone()),
        lexopt::Error::UnexpectedOption(option) => ArgumentFault::UnexpectedOption(option.clone()),
        lexopt::Error::UnexpectedArgument(arg) => {
            ArgumentFault::UnexpectedArgument(arg.to_string_lossy().into_owned())
        },
        lexopt::Error::UnexpectedValue { option, value } => {
            let value = value.to_string_lossy().into_owned();
            ArgumentFault::UnexpectedValue { option: option.clone(), value }
        },
        lexopt::Error::NonUnicodeValue(value) => {
            ArgumentFault::NonUnicodeValue(value.to_string_lossy().into_owned())
        },
        _ => ArgumentFault::Other,
    }
}

} // verus!
