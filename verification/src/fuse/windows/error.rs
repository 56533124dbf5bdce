//! What goes wrong with a mount, and what the driver is answered.

use vstd::prelude::*;
use vstd::string::StringExecFns;

verus! {

/// Why a mount did not come about.
#[derive(Debug)]
pub enum MountError {
    Io(std::io::Error),
    MountFailed(String),
    InvalidPath(String),
}

pub type MountResult<T> = Result<T, MountError>;

impl From<std::io::Error> for MountError {
    fn from(error: std::io::Error) -> (r: Self) {
        MountError::Io(error)
    }
}

impl vstd::std_specs::convert::FromSpecImpl<std::io::Error> for MountError {
    open spec fn obeys_from_spec() -> bool {
        true
    }

    open spec fn from_spec(error: std::io::Error) -> Self {
        MountError::Io(error)
    }
}

/// Formats a `std::io::Error` for display. Nothing is claimed of the text: it
/// comes from the operating system.
#[verifier::external_body]
fn io_error_text(error: &std::io::Error) -> String {
    format!("{}", error)
}

/// A description of `error` that the operating system may give.
pub closed spec fn is_io_error_text(error: std::io::Error, text: Seq<char>) -> bool {
    exists|described: String|
        call_ensures(io_error_text, (&error,), described) && #[trigger] described@ == text
}

/// What a reader is told of an input or output error that the operating system
/// describes as `text`.
pub fn io_message(text: &str) -> (r: String)
    ensures
        r@ == "I/O error: "@ + text@,
{
    String::from_str("I/O error: ").concat(text)
}

impl MountError {
    /// The error as text for a reader. What follows the first words of an input
    /// or output error is the operating system's.
    pub fn message(&self) -> (r: String)
        ensures
            match self {
                MountError::Io(error) => exists|text: Seq<char>|
                    is_io_error_text(*error, text) && r@ == #[trigger] ("I/O error: "@ + text),
                MountError::MountFailed(reason) => r@ == "Mount failed: "@ + reason@,
                MountError::InvalidPath(reason) => r@ == "Invalid path: "@ + reason@,
            },
    {
        match self {
            MountError::Io(error) => {
                let text = io_error_text(error);
                assert(is_io_error_text(*error, text@));
                io_message(text.as_str())
            },
            MountError::MountFailed(reason) => String::from_str("Mount failed: ").concat(
                reason.as_str(),
            ),
            MountError::InvalidPath(reason) => String::from_str("Invalid path: ").concat(
                reason.as_str(),
            ),
        }
    }
}

/// NT status codes, as bit patterns.
pub const STATUS_ACCESS_DENIED: u32 = 0xC000_0022;

pub const STATUS_OBJECT_NAME_NOT_FOUND: u32 = 0xC000_0034;

pub const STATUS_NOT_A_DIRECTORY: u32 = 0xC000_0103;

/// Why the driver's request is refused.
#[derive(Clone, Copy, Debug, PartialEq, Eq)]
pub enum Status {
    AccessDenied,
    ObjectNameNotFound,
    NotADirectory,
}

impl Status {
    /// The NT status code that the driver is answered with.
    pub fn code(&self) -> (r: u32)
        ensures
            r == (match self {
                Status::AccessDenied => 0xC000_0022u32,
                Status::ObjectNameNotFound => 0xC000_0034u32,
                Status::NotADirectory => 0xC000_0103u32,
            }),
    {
        match self {
            Status::AccessDenied => STATUS_ACCESS_DENIED,
            Status::ObjectNameNotFound => STATUS_OBJECT_NAME_NOT_FOUND,
            Status::NotADirectory => STATUS_NOT_A_DIRECTORY,
        }
    }
}

} // verus!
