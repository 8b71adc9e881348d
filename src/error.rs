//! The errors of the file reader, with the message and hint shown for each.
use vstd::prelude::*;

use crate::text::{decimal, decimal_string};

verus! {

#[verifier::external_type_specification]
#[verifier::external_body]
pub struct ExIoError(std::io::Error);

/// The size ceiling on file content, in bytes (10 MiB).
pub const MAX_FILE_SIZE: usize = 10 * 1024 * 1024;

/// Why a markdown file could not be read.
#[derive(Debug)]
pub enum MarkdownError {
    /// Nothing exists at the path.
    FileNotFound(String),
    /// The path names something other than a regular file.
    NotAFile(String),
    /// The path and its extension (`none` when it has none).
    InvalidExtension(String, String),
    /// Opening, reading or decoding the file failed.
    ReadError(String, std::io::Error),
    /// The path and the content's size in bytes.
    FileTooLarge(String, usize),
    /// The path is not a usable file path.
    InvalidPath,
    /// An I/O failure of no other category.
    IoError(std::io::Error),
}

/// `Ok(value)` or the reason the file could not be read.
pub type MarkdownResult<T> = Result<T, MarkdownError>;

impl MarkdownError {
    /// The variants that wrap an underlying I/O error.
    pub open spec fn has_io_cause(&self) -> bool {
        self is ReadError || self is IoError
    }

    /// The message for this error, with `cause` standing for the text of
    /// the wrapped I/O error where there is one.
    pub open spec fn message_spec(&self, cause: Seq<char>) -> Seq<char> {
        match *self {
            MarkdownError::FileNotFound(p) => "File not found: '"@ + p@ + "'"@,
            MarkdownError::NotAFile(p) => "Path is not a file: '"@ + p@ + "'"@,
            MarkdownError::InvalidExtension(p, x) => "File '"@ + p@ + "' has invalid extension '"@
                + x@ + "', expected '.md' or '.markdown'"@,
            MarkdownError::ReadError(p, _) => "Failed to read file '"@ + p@ + "': "@ + cause,
            MarkdownError::FileTooLarge(p, n) => "File '"@ + p@ + "' is too large ("@ + decimal(
                n as nat,
            ) + " bytes), maximum allowed is "@ + decimal(MAX_FILE_SIZE as nat) + " bytes"@,
            MarkdownError::InvalidPath => "Invalid file path provided"@,
            MarkdownError::IoError(_) => "I/O error: "@ + cause,
        }
    }

    /// The message for this error, given the text of its I/O cause (ignored
    /// by the variants that have none).
    pub fn message_with_cause(&self, cause: &str) -> (r: String)
        ensures
            r@ == self.message_spec(cause@),
    {
        match self {
            MarkdownError::FileNotFound(p) => {
                let mut r = String::from_str("File not found: '");
                r.append(p.as_str());
                r.append("'");
                r
            },
            MarkdownError::NotAFile(p) => {
                let mut r = String::from_str("Path is not a file: '");
                r.append(p.as_str());
                r.append("'");
                r
            },
            MarkdownError::InvalidExtension(p, x) => {
                let mut r = String::from_str("File '");
                r.append(p.as_str());
                r.append("' has invalid extension '");
                r.append(x.as_str());
                r.append("', expected '.md' or '.markdown'");
                r
            },
            MarkdownError::ReadError(p, _) => {
                let mut r = String::from_str("Failed to read file '");
                r.append(p.as_str());
                r.append("': ");
                r.append(cause);
                r
            },
            MarkdownError::FileTooLarge(p, n) => {
                let size = decimal_string(*n);
                let max = decimal_string(MAX_FILE_SIZE);
                let mut r = String::from_str("File '");
                r.append(p.as_str());
                r.append("' is too large (");
                r.append(size.as_str());
                r.append(" bytes), maximum allowed is ");
                r.append(max.as_str());
                r.append(" bytes");
                r
            },
            MarkdownError::InvalidPath => String::from_str("Invalid file path provided"),
            MarkdownError::IoError(_) => {
                let mut r = String::from_str("I/O error: ");
                r.append(cause);
                r
            },
        }
    }

    /// The message shown for this error. Where an I/O error is wrapped, its
    /// own text (which the operating system words) ends the message.
    pub fn message(&self) -> (r: String)
        ensures
            !self.has_io_cause() ==> r@ == self.message_spec(Seq::empty()),
            self.has_io_cause() ==> exists|cause: Seq<char>| r@ == self.message_spec(cause),
    {
        match self {
            MarkdownError::ReadError(_, e) => {
                let cause = io_error_text(e);
                self.message_with_cause(cause.as_str())
            },
            MarkdownError::IoError(e) => {
                let cause = io_error_text(e);
                self.message_with_cause(cause.as_str())
            },
            _ => {
                proof {
                    reveal_strlit("");
                }
                self.message_with_cause("")
            },
        }
    }

    /// The hint shown beneath the message.
    pub fn hint(&self) -> (r: &'static str)
        ensures
            r@ == match *self {
                MarkdownError::FileNotFound(_) => "Make sure the file path is correct and the file exists."@,
                MarkdownError::InvalidExtension(_, _) => "Markdown files must have a .md or .markdown extension."@,
                MarkdownError::InvalidPath => "Please provide a valid file path."@,
                MarkdownError::IoError(_) => "Check file permissions and ensure the file is accessible."@,
                _ => "An unexpected error occurred."@,
            },
    {
        match self {
            MarkdownError::FileNotFound(_) => "Make sure the file path is correct and the file exists.",
            MarkdownError::InvalidExtension(_, _) => "Markdown files must have a .md or .markdown extension.",
            MarkdownError::InvalidPath => "Please provide a valid file path.",
            MarkdownError::IoError(_) => "Check file permissions and ensure the file is accessible.",
            _ => "An unexpected error occurred.",
        }
    }

    /// The wrapped I/O error, for the variants that have one.
    pub fn source(&self) -> (r: Option<&std::io::Error>)
        ensures
            r is Some <==> self.has_io_cause(),
            self is ReadError ==> r == Some(&self->ReadError_1),
            self is IoError ==> r == Some(&self->IoError_0),
    {
        match self {
            MarkdownError::ReadError(_, e) => Some(e),
            MarkdownError::IoError(e) => Some(e),
            _ => None,
        }
    }

    /// The error for an I/O failure, given whether its kind is "not found":
    /// that becomes `FileNotFound` (with the placeholder path `file`), any
    /// other kind `IoError`.
    pub fn from_io_error(error: std::io::Error, not_found: bool) -> (r: MarkdownError)
        ensures
            not_found ==> (r matches MarkdownError::FileNotFound(p) && p@ == "file"@),
            !not_found ==> r == MarkdownError::IoError(error),
    {
        if not_found {
            MarkdownError::FileNotFound(String::from_str("file"))
        } else {
            MarkdownError::IoError(error)
        }
    }
}

impl From<std::io::Error> for MarkdownError {
    fn from(error: std::io::Error) -> MarkdownError {
        let not_found = io_error_is_not_found(&error);
        MarkdownError::from_io_error(error, not_found)
    }
}

impl vstd::std_specs::convert::FromSpecImpl<std::io::Error> for MarkdownError {
    /// Which variant comes out depends on the error's kind, which is not
    /// visible here; `from_io_error` states the conversion.
    open spec fn obeys_from_spec() -> bool {
        false
    }

    open spec fn from_spec(v: std::io::Error) -> MarkdownError {
        MarkdownError::IoError(v)
    }
}

/// Relies on `std::io::Error`'s `Display`: the text that describes the error.
/// It comes from the operating system for OS errors, so nothing is stated.
#[verifier::external_body]
fn io_error_text(e: &std::io::Error) -> (r: String) {
    e.to_string()
}

/// Relies on `std::io::Error::kind`: whether the error's kind is `NotFound`.
#[verifier::external_body]
fn io_error_is_not_found(e: &std::io::Error) -> (r: bool) {
    e.kind() == std::io::ErrorKind::NotFound
}

} // verus!
