//! The failure categories, their exit statuses and their messages.

use vstd::prelude::*;
use crate::hex_codec::describe_hex_error;
use crate::hex_codec::hex_error_text;

verus! {

/// Why a text could not be read as hexadecimal digits.
#[derive(Debug, Clone, Copy, PartialEq, Eq, Structural)]
pub enum HexError {
    /// The byte at `index`, shown as the character `c`, is no hexadecimal digit.
    InvalidHexCharacter { c: char, index: usize },
    /// The number of digits is odd.
    OddLength,
    /// The digits do not fill a container of fixed size.
    InvalidStringLength,
}

/// A failed run. Each variant is one category.
#[derive(Debug, PartialEq, Eq)]
pub enum Error {
    /// Two arguments were given of which only one is allowed; holds their names.
    ArgConflict(String, String),
    /// Neither a flag nor a file name tells the direction.
    NoDirection,
    /// There is nothing to read.
    NoInput,
    /// The hexadecimal text is malformed.
    Hex(HexError),
    /// A named file could not be opened, read or written; holds the file's
    /// name and the cause.
    File(String, String),
    /// Reading or writing failed; holds the cause.
    Io(String),
    /// The MessagePack side of a conversion failed; holds the cause.
    MessagePak(String),
    /// The JSON side of a conversion failed; holds the cause.
    Json(String),
    /// Any other failure; holds its description.
    Other(String),
}

/// The mathematical value of an [`Error`]: the same variants over sequences
/// of characters.
pub enum ErrorView {
    ArgConflict(Seq<char>, Seq<char>),
    NoDirection,
    NoInput,
    Hex(HexError),
    File(Seq<char>, Seq<char>),
    Io(Seq<char>),
    MessagePak(Seq<char>),
    Json(Seq<char>),
    Other(Seq<char>),
}

impl View for Error {
    type V = ErrorView;

    open spec fn view(&self) -> ErrorView {
        match self {
            Error::ArgConflict(a, b) => ErrorView::ArgConflict(a@, b@),
            Error::NoDirection => ErrorView::NoDirection,
            Error::NoInput => ErrorView::NoInput,
            Error::Hex(e) => ErrorView::Hex(*e),
            Error::File(name, cause) => ErrorView::File(name@, cause@),
            Error::Io(cause) => ErrorView::Io(cause@),
            Error::MessagePak(cause) => ErrorView::MessagePak(cause@),
            Error::Json(cause) => ErrorView::Json(cause@),
            Error::Other(text) => ErrorView::Other(text@),
        }
    }
}

impl Clone for Error {
    fn clone(&self) -> (copy: Self)
        ensures
            copy@ == self@,
    {
        match self {
            Error::ArgConflict(a, b) => Error::ArgConflict(a.clone(), b.clone()),
            Error::NoDirection => Error::NoDirection,
            Error::NoInput => Error::NoInput,
            Error::Hex(e) => Error::Hex(*e),
            Error::File(name, cause) => Error::File(name.clone(), cause.clone()),
            Error::Io(cause) => Error::Io(cause.clone()),
            Error::MessagePak(cause) => Error::MessagePak(cause.clone()),
            Error::Json(cause) => Error::Json(cause.clone()),
            Error::Other(text) => Error::Other(text.clone()),
        }
    }
}

impl ErrorView {
    /// The exit status of the category.
    pub open spec fn exit_code(self) -> u8 {
        match self {
            ErrorView::ArgConflict(_, _) => 4,
            ErrorView::NoDirection => 6,
            ErrorView::NoInput => 20,
            ErrorView::Io(_) => 30,
            ErrorView::File(_, _) => 31,
            ErrorView::MessagePak(_) => 40,
            ErrorView::Json(_) => 41,
            ErrorView::Hex(_) => 42,
            ErrorView::Other(_) => 90,
        }
    }

    /// The line that reports the failure.
    pub open spec fn message(self) -> Seq<char> {
        match self {
            ErrorView::ArgConflict(a, b) => "Both "@ + a + " and "@ + b
                + " given, but only one is allowed at a time"@,
            ErrorView::NoDirection =>
                "Could not determine conversion direction. Specify '--to-json' or '--to-msgpack' ('-j'/'-m')."@,
            ErrorView::MessagePak(cause) => "Unable to parse MessagePack input: "@ + cause,
            ErrorView::Json(cause) => "JSON error, "@ + cause,
            ErrorView::Hex(e) => "Invalid hex: "@ + hex_error_text(e),
            ErrorView::NoInput => "No input is present"@,
            ErrorView::File(name, cause) => "Error reading '"@ + name + "': "@ + cause,
            ErrorView::Io(cause) => "IO error: "@ + cause,
            ErrorView::Other(text) => text,
        }
    }

    /// Two failures are of one category when they are the same variant.
    pub open spec fn same_category(self, other: ErrorView) -> bool {
        match (self, other) {
            (ErrorView::ArgConflict(_, _), ErrorView::ArgConflict(_, _)) => true,
            (ErrorView::NoDirection, ErrorView::NoDirection) => true,
            (ErrorView::NoInput, ErrorView::NoInput) => true,
            (ErrorView::Hex(_), ErrorView::Hex(_)) => true,
            (ErrorView::File(_, _), ErrorView::File(_, _)) => true,
            (ErrorView::Io(_), ErrorView::Io(_)) => true,
            (ErrorView::MessagePak(_), ErrorView::MessagePak(_)) => true,
            (ErrorView::Json(_), ErrorView::Json(_)) => true,
            (ErrorView::Other(_), ErrorView::Other(_)) => true,
            _ => false,
        }
    }
}

impl Error {
    /// The exit status with which a process that failed this way ends.
    /// It is never 0, which is kept for success.
    pub fn exit_code(&self) -> (code: u8)
        ensures
            code == self@.exit_code(),
            code != 0,
    {
        match self {
            Error::ArgConflict(_, _) => 4,
            Error::NoDirection => 6,
            Error::NoInput => 20,
            Error::Io(_) => 30,
            Error::File(_, _) => 31,
            Error::MessagePak(_) => 40,
            Error::Json(_) => 41,
            Error::Hex(_) => 42,
            Error::Other(_) => 90,
        }
    }

    /// The line that reports the failure to the user.
    pub fn message(&self) -> (text: String)
        ensures
            text@ == self@.message(),
    {
        match self {
            Error::ArgConflict(a, b) => String::from_str("Both ").concat(a.as_str()).concat(
                " and ",
            ).concat(b.as_str()).concat(" given, but only one is allowed at a time"),
            Error::NoDirection => String::from_str(
                "Could not determine conversion direction. Specify '--to-json' or '--to-msgpack' ('-j'/'-m').",
            ),
            Error::MessagePak(cause) => String::from_str(
                "Unable to parse MessagePack input: ",
            ).concat(cause.as_str()),
            Error::Json(cause) => String::from_str("JSON error, ").concat(cause.as_str()),
            Error::Hex(e) => {
                let words = describe_hex_error(e);
                String::from_str("Invalid hex: ").concat(words.as_str())
            },
            Error::NoInput => String::from_str("No input is present"),
            Error::File(name, cause) => String::from_str("Error reading '").concat(
                name.as_str(),
            ).concat("': ").concat(cause.as_str()),
            Error::Io(cause) => String::from_str("IO error: ").concat(cause.as_str()),
            Error::Other(text) => text.clone(),
        }
    }
}

/// The exit status tells the category: two failures end with the same status
/// exactly when they are of one category.
pub proof fn lemma_exit_code_tells_category(a: ErrorView, b: ErrorView)
    ensures
        a.exit_code() == b.exit_code() <==> a.same_category(b),
{
}

} // verus!
