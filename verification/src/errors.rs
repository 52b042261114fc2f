//! The error type shared by every fallible operation of the crate.

use vstd::prelude::*;
use vstd::std_specs::convert::FromSpecImpl;
use vstd::string::{to_string_from_display_ensures, StringExecFns};

verus! {

/// `reqwest::Error`, carried through without inspection.
#[verifier::external_type_specification]
#[verifier::external_body]
pub struct ExReqwestError(reqwest::Error);

/// `serde_json::Error`, carried through without inspection.
#[verifier::external_type_specification]
#[verifier::external_body]
pub struct ExSerdeJsonError(serde_json::Error);

/// `std::io::Error`, carried through without inspection.
#[verifier::external_type_specification]
#[verifier::external_body]
pub struct ExIoError(std::io::Error);

/// Everything that can go wrong while answering a query.
#[derive(Debug)]
pub enum CliError {
    /// A configuration or input problem described by a message.
    String(String),
    /// A transport failure while fetching a document.
    Request(reqwest::Error),
    /// A response body that is not accepted as JSON.
    Sled(serde_json::Error),
    /// A file system failure.
    Io(std::io::Error),
}

/// The label that leads the message of a configuration or input error.
pub open spec fn input_label() -> Seq<char> {
    "[Error]: "@
}

/// The label that leads the message of a transport error.
pub open spec fn request_label() -> Seq<char> {
    "[Requset Error]: "@
}

/// The label that leads the message of a JSON error.
pub open spec fn json_label() -> Seq<char> {
    "[Seld Error]: "@
}

/// The label that leads the message of a file system error.
pub open spec fn io_label() -> Seq<char> {
    "[I/O Error]: "@
}

impl CliError {
    /// Whether this is the error of this crate's own that carries exactly
    /// the message `text`.
    pub open spec fn is_message(self, text: Seq<char>) -> bool {
        self matches CliError::String(message) && message@ == text
    }

    /// The label that leads the message of this error.
    pub open spec fn label(self) -> Seq<char> {
        match self {
            CliError::String(_) => input_label(),
            CliError::Request(_) => request_label(),
            CliError::Sled(_) => json_label(),
            CliError::Io(_) => io_label(),
        }
    }

    /// Whether `text` is what this error says of itself: the message of an
    /// error of this crate's own, else what the outside error displays.
    pub open spec fn is_described_by(self, text: String) -> bool {
        match self {
            CliError::String(message) => text@ == message@,
            CliError::Request(error) => to_string_from_display_ensures::<reqwest::Error>(
                &error,
                text,
            ),
            CliError::Sled(error) => to_string_from_display_ensures::<serde_json::Error>(
                &error,
                text,
            ),
            CliError::Io(error) => to_string_from_display_ensures::<std::io::Error>(&error, text),
        }
    }

    /// The message of this error: its label, followed by what the error
    /// says of itself.
    pub fn message(&self) -> (message: String)
        ensures
            exists|text: String| #[trigger]
                self.is_described_by(text) && message@ == self.label() + text@,
            *self matches CliError::String(text) ==> message@ == input_label() + text@,
    {
        match self {
            CliError::String(text) => {
                assert(self.is_described_by(*text));
                String::from_str("[Error]: ").concat(text.as_str())
            },
            CliError::Request(error) => {
                let text = error.to_string();
                assert(self.is_described_by(text));
                String::from_str("[Requset Error]: ").concat(text.as_str())
            },
            CliError::Sled(error) => {
                let text = error.to_string();
                assert(self.is_described_by(text));
                String::from_str("[Seld Error]: ").concat(text.as_str())
            },
            CliError::Io(error) => {
                let text = error.to_string();
                assert(self.is_described_by(text));
                String::from_str("[I/O Error]: ").concat(text.as_str())
            },
        }
    }
}

impl From<reqwest::Error> for CliError {
    fn from(error: reqwest::Error) -> (r: CliError) {
        CliError::Request(error)
    }
}

impl FromSpecImpl<reqwest::Error> for CliError {
    open spec fn obeys_from_spec() -> bool {
        true
    }

    open spec fn from_spec(error: reqwest::Error) -> CliError {
        CliError::Request(error)
    }
}

impl From<serde_json::Error> for CliError {
    fn from(error: serde_json::Error) -> (r: CliError) {
        CliError::Sled(error)
    }
}

impl FromSpecImpl<serde_json::Error> for CliError {
    open spec fn obeys_from_spec() -> bool {
        true
    }

    open spec fn from_spec(error: serde_json::Error) -> CliError {
        CliError::Sled(error)
    }
}

impl From<std::io::Error> for CliError {
    fn from(error: std::io::Error) -> (r: CliError) {
        CliError::Io(error)
    }
}

impl FromSpecImpl<std::io::Error> for CliError {
    open spec fn obeys_from_spec() -> bool {
        true
    }

    open spec fn from_spec(error: std::io::Error) -> CliError {
        CliError::Io(error)
    }
}

} // verus!
