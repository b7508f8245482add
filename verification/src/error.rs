//! The one error type that every operation reports.

use vstd::prelude::*;
use vstd::string::StringExecFns;

verus! {

/// The surface on which an operation failed.
#[derive(Clone, Copy, Debug, PartialEq, Eq, Structural)]
pub enum ErrorKind {
    /// The file could not be opened or read before dimension probing.
    Open,
    /// The bytes could not be read as an image by any supported codec, or the
    /// file holding them could not be read.
    Decode,
    /// The decoded image could not be turned into an encoded thumbnail.
    Encode,
    /// The container could not be parsed for its size.
    DimensionRead,
    /// The file could not be read in full for fingerprinting.
    Read,
}

impl ErrorKind {
    /// The words that open the message of an error of this kind.
    pub open spec fn label(self) -> Seq<char> {
        match self {
            ErrorKind::Open => "cannot open file"@,
            ErrorKind::Decode => "cannot decode image"@,
            ErrorKind::Encode => "cannot encode thumbnail"@,
            ErrorKind::DimensionRead => "cannot read image dimensions"@,
            ErrorKind::Read => "cannot read file"@,
        }
    }

    /// The label as a string slice.
    pub fn describe(self) -> (text: &'static str)
        ensures
            text@ == self.label(),
    {
        match self {
            ErrorKind::Open => "cannot open file",
            ErrorKind::Decode => "cannot decode image",
            ErrorKind::Encode => "cannot encode thumbnail",
            ErrorKind::DimensionRead => "cannot read image dimensions",
            ErrorKind::Read => "cannot read file",
        }
    }
}

/// A categorized failure: what failed, on which file, and why.
#[derive(Debug)]
pub struct ProcessError {
    pub kind: ErrorKind,
    /// The path of the file the operation was about.
    pub path: String,
    /// The text of the underlying cause.
    pub cause: String,
}

impl ProcessError {
    /// An error of `kind` about `path`, caused by `cause`.
    pub fn new(kind: ErrorKind, path: &str, cause: String) -> (e: ProcessError)
        ensures
            e.kind == kind,
            e.path@ == path@,
            e.cause@ == cause@,
    {
        ProcessError { kind, path: String::from_str(path), cause }
    }

    /// What `message` returns: label, path and cause, separated by ": ".
    pub open spec fn message_text(self) -> Seq<char> {
        self.kind.label() + ": "@ + self.path@ + ": "@ + self.cause@
    }

    /// The human-readable message of this error.
    pub fn message(&self) -> (text: String)
        ensures
            text@ == self.message_text(),
    {
        let mut text = String::from_str(self.kind.describe());
        text.append(": ");
        text.append(self.path.as_str());
        text.append(": ");
        text.append(self.cause.as_str());
        text
    }
}

/// The outcome of a step as an operation reports it: a value as it is, a
/// failure as an error of `kind` about `path` that carries the failure's text.
pub fn report<T>(kind: ErrorKind, path: &str, outcome: Result<T, String>) -> (r: Result<
    T,
    ProcessError,
>)
    ensures
        match outcome {
            Ok(value) => r matches Ok(same) && same == value,
            Err(cause) => r matches Err(e) && e.kind == kind && e.path@ == path@ && e.cause@
                == cause@,
        },
{
    match outcome {
        Ok(value) => Ok(value),
        Err(cause) => Err(ProcessError::new(kind, path, cause)),
    }
}

} // verus!
