//! Failures of the tailer.

use vstd::prelude::*;
use vstd::string::*;

verus! {

/// `std::io::Error`: an I/O failure as the operating system reported it. It is
/// carried through as it came; nothing is claimed of what it holds.
#[verifier::external_type_specification]
#[verifier::external_body]
pub struct ExIoError(std::io::Error);

/// Why a checkpoint's first line is not a byte offset.
#[derive(Clone, Copy, Debug, PartialEq, Eq, Structural)]
pub enum CastFailure {
    /// The line holds nothing but white space.
    Empty,
    /// The line holds something other than decimal digits.
    InvalidDigit,
    /// The number does not fit in 64 bits.
    PosOverflow,
}

/// What can go wrong while following a file.
#[derive(Debug)]
pub enum TailError {
    /// The file at this path could not be opened.
    FileOpenError(String),
    /// The file's metadata, or its content, could not be read.
    ReadMetadataError(std::io::Error),
    /// The reader could not be moved to the current offset.
    StartSeekError(std::io::Error),
    /// Reading the next chunk failed.
    BufferReadError(std::io::Error),
    /// The check for rotation or truncation failed.
    FileOperationError(std::io::Error),
    /// The checkpoint does not hold a byte offset.
    CastError(CastFailure),
}

impl CastFailure {
    /// The name of the failure.
    pub open spec fn name_spec(&self) -> Seq<char> {
        match self {
            CastFailure::Empty => "Empty"@,
            CastFailure::InvalidDigit => "InvalidDigit"@,
            CastFailure::PosOverflow => "PosOverflow"@,
        }
    }

    /// The name of the failure.
    pub fn name(&self) -> (name: &'static str)
        ensures
            name@ == self.name_spec(),
    {
        match self {
            CastFailure::Empty => "Empty",
            CastFailure::InvalidDigit => "InvalidDigit",
            CastFailure::PosOverflow => "PosOverflow",
        }
    }
}

/// The text of an I/O failure, for a message. Formats the error with
/// `std::fmt::Debug`; the text is the operating system's and nothing is
/// claimed of it.
#[verifier::external_body]
fn io_error_text(err: &std::io::Error) -> (text: String) {
    format!("{:?}", err)
}

/// `detail` behind `label`.
pub fn labelled(label: &str, detail: &str) -> (text: String)
    ensures
        text@ == label@ + detail@,
{
    let mut text = label.to_owned();
    text.append(detail);
    text
}

impl TailError {
    /// What every message of this error begins with.
    pub open spec fn label_spec(&self) -> Seq<char> {
        match self {
            TailError::FileOpenError(_) => "failed to open "@,
            TailError::ReadMetadataError(_) => "read metadata: "@,
            TailError::StartSeekError(_) => "start seeking: "@,
            TailError::BufferReadError(_) => "buffer reader: "@,
            TailError::FileOperationError(_) => "detecting file operation: "@,
            TailError::CastError(_) => "cast string to int: "@,
        }
    }

    /// The error in words: its label, then the path that could not be
    /// opened, the name of the failed cast, or the text of the I/O failure.
    pub fn message(&self) -> (text: String)
        ensures
            self.label_spec().is_prefix_of(text@),
            self matches TailError::FileOpenError(path) ==> text@ == self.label_spec() + path@,
            self matches TailError::CastError(failure) ==> text@ == self.label_spec()
                + failure.name_spec(),
    {
        match self {
            TailError::FileOpenError(path) => labelled("failed to open ", path.as_str()),
            TailError::ReadMetadataError(err) => labelled(
                "read metadata: ",
                io_error_text(err).as_str(),
            ),
            TailError::StartSeekError(err) => labelled(
                "start seeking: ",
                io_error_text(err).as_str(),
            ),
            TailError::BufferReadError(err) => labelled(
                "buffer reader: ",
                io_error_text(err).as_str(),
            ),
            TailError::FileOperationError(err) => labelled(
                "detecting file operation: ",
                io_error_text(err).as_str(),
            ),
            TailError::CastError(failure) => labelled("cast string to int: ", failure.name()),
        }
    }
}

} // verus!
