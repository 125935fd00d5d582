//! What every command answers with: a message or an error, and the status
//! line that wraps either for the caller.

use crate::decks::Deck;
use crate::text::str_eq;
use crate::notetype::NoteType;
use crate::view_card::Card;
use vstd::prelude::*;

verus! {

/// Why a command failed.
#[derive(Clone, Debug, PartialEq, Eq)]
pub enum Error {
    /// The collection reported a failure; its message is kept as it came.
    Anki(String),
    /// A parameter holds the first text where only the second is accepted.
    InvalidParam(String, String),
    /// A lookup found nothing.
    NoResults,
    /// A number holds the first value where only those of the second are accepted.
    InvalidNumber(String, String),
    /// The review queue holds no card that is due.
    NoCardAvailable,
    /// An answer was given against a scheduling state that is not the current one.
    StaleState,
}

/// What an `Error` holds, with its strings as sequences of characters.
pub ghost enum ErrorView {
    Anki(Seq<char>),
    InvalidParam(Seq<char>, Seq<char>),
    NoResults,
    InvalidNumber(Seq<char>, Seq<char>),
    NoCardAvailable,
    StaleState,
}

impl View for Error {
    type V = ErrorView;

    open spec fn view(&self) -> ErrorView {
        match *self {
            Error::Anki(message) => ErrorView::Anki(message@),
            Error::InvalidParam(value, accepted) => ErrorView::InvalidParam(value@, accepted@),
            Error::NoResults => ErrorView::NoResults,
            Error::InvalidNumber(value, accepted) => ErrorView::InvalidNumber(value@, accepted@),
            Error::NoCardAvailable => ErrorView::NoCardAvailable,
            Error::StaleState => ErrorView::StaleState,
        }
    }
}

impl ErrorView {
    /// The line that describes the error to the user.
    pub open spec fn message(self) -> Seq<char> {
        match self {
            ErrorView::Anki(message) => "anki error: "@ + message,
            ErrorView::InvalidParam(value, accepted) => "invalid parameter `"@ + value
                + "`, must be `"@ + accepted + "`"@,
            ErrorView::NoResults => "no results found"@,
            ErrorView::InvalidNumber(value, accepted) => "invalid number format `"@ + value
                + "`, must be in `["@ + accepted + "]`"@,
            ErrorView::NoCardAvailable => "no card available"@,
            ErrorView::StaleState => "stale scheduling state"@,
        }
    }
}

impl Error {
    /// The line that describes the error to the user.
    pub fn message(&self) -> (line: String)
        ensures
            line@ == self@.message(),
    {
        match self {
            Error::Anki(message) => {
                let mut line = String::from_str("anki error: ");
                line.append(message.as_str());
                line
            },
            Error::InvalidParam(value, accepted) => {
                let mut line = String::from_str("invalid parameter `");
                line.append(value.as_str());
                line.append("`, must be `");
                line.append(accepted.as_str());
                line.append("`");
                line
            },
            Error::NoResults => String::from_str("no results found"),
            Error::InvalidNumber(value, accepted) => {
                let mut line = String::from_str("invalid number format `");
                line.append(value.as_str());
                line.append("`, must be in `[");
                line.append(accepted.as_str());
                line.append("]`");
                line
            },
            Error::NoCardAvailable => String::from_str("no card available"),
            Error::StaleState => String::from_str("stale scheduling state"),
        }
    }
}

/// What a command hands back when it succeeds.
#[derive(Clone, Debug, PartialEq, Eq)]
pub enum MessageType {
    Decks(Vec<Deck>),
    Card(Card),
    NoteTypes(Vec<NoteType>),
    Empty,
    Message(String),
}

/// The outcome of a command.
pub type ApiResult = Result<MessageType, Error>;

/// Whether a command succeeded.
#[derive(Clone, Copy, Debug, PartialEq, Eq, Structural)]
pub enum Status {
    Success,
    Error,
}

/// The outcome of a command as the caller receives it: a status and a message.
#[derive(Clone, Debug, PartialEq, Eq)]
pub struct Output {
    pub status: Status,
    pub message: MessageType,
}

impl Output {
    /// Wraps an outcome: a success keeps its message, a failure becomes the
    /// line that describes the error.
    pub fn from(result: ApiResult) -> (output: Output)
        ensures
            match result {
                Ok(message) => output.status == Status::Success && output.message == message,
                Err(error) => output.status == Status::Error && (output.message matches MessageType::Message(
                    line,
                ) && line@ == error@.message()),
            },
    {
        match result {
            Ok(message) => Output { status: Status::Success, message },
            Err(error) => Output { status: Status::Error, message: MessageType::Message(error.message()) },
        }
    }
}

/// How a message is written out.
#[derive(Clone, Copy, Debug, PartialEq, Eq, Structural)]
pub enum OutputFormat {
    /// JSON over several indented lines.
    PrettyJson,
    /// JSON on one line.
    Json,
}

/// The format that a format token names, if it names one.
pub open spec fn format_of_token(token: Seq<char>) -> Option<OutputFormat> {
    if token == "pretty-json"@ {
        Some(OutputFormat::PrettyJson)
    } else if token == "json"@ {
        Some(OutputFormat::Json)
    } else {
        None
    }
}

impl OutputFormat {
    /// Reads a format token.
    pub fn parse(token: &str) -> (format: Option<OutputFormat>)
        ensures
            format == format_of_token(token@),
    {
        if str_eq(token, "pretty-json") {
            Some(OutputFormat::PrettyJson)
        } else if str_eq(token, "json") {
            Some(OutputFormat::Json)
        } else {
            None
        }
    }
}

/// What is to be printed for an outcome.
#[derive(Clone, Debug, PartialEq, Eq)]
pub enum Print {
    /// Nothing at all.
    Nothing,
    /// The message of the outcome, on standard output, in this format.
    Message(OutputFormat),
    /// This line, on standard error.
    ErrorLine(String),
}

/// What is to be printed for an outcome, with the line as a sequence of characters.
pub ghost enum PrintView {
    Nothing,
    Message(OutputFormat),
    ErrorLine(Seq<char>),
}

impl View for Print {
    type V = PrintView;

    open spec fn view(&self) -> PrintView {
        match *self {
            Print::Nothing => PrintView::Nothing,
            Print::Message(format) => PrintView::Message(format),
            Print::ErrorLine(line) => PrintView::ErrorLine(line@),
        }
    }
}

/// Decides what is printed for `outcome` under the format token `format`:
/// the line of an error; nothing for an empty message; any other message
/// in the format that the token names, and nothing where it names none.
pub fn print_output(format: &str, outcome: &ApiResult) -> (print: Print)
    ensures
        print@ == match *outcome {
            Err(error) => PrintView::ErrorLine(error@.message()),
            Ok(MessageType::Empty) => PrintView::Nothing,
            Ok(_) => match format_of_token(format@) {
                Some(named) => PrintView::Message(named),
                None => PrintView::Nothing,
            },
        },
{
    match outcome {
        Err(error) => Print::ErrorLine(error.message()),
        Ok(MessageType::Empty) => Print::Nothing,
        Ok(_) => match OutputFormat::parse(format) {
            Some(named) => Print::Message(named),
            None => Print::Nothing,
        },
    }
}

} // verus!
