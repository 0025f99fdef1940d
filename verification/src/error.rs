//! What can go wrong while a replay is prepared.

use vstd::prelude::*;

verus! {

/// The ways in which a legacy container can be damaged.
#[derive(Clone, Copy, Debug, PartialEq, Eq, Structural)]
pub enum Corruption {
    /// The file holds no line at all, so the metadata is missing.
    MissingMetadata,
    /// The file ends after its first line, so the replay stream is missing.
    MissingStream,
    /// The second line is not base64 in the standard alphabet.
    BadBase64,
    /// The decoded stream is shorter than the header in front of the payload.
    TruncatedHeader,
    /// The payload is not a complete zlib stream.
    BadCompressedStream,
}

/// Why no raw replay could be produced.
#[derive(Clone, Debug, PartialEq, Eq)]
pub enum ReplayError {
    /// The file name ends in neither known suffix.
    UnsupportedFormat,
    /// A file could not be opened, read or written; the text says why.
    IoError(String),
    /// The legacy container is structurally broken.
    CorruptReplay(Corruption),
}

/// A `ReplayError` as a mathematical value.
pub enum ErrorModel {
    UnsupportedFormat,
    IoError(Seq<char>),
    CorruptReplay(Corruption),
}

impl View for ReplayError {
    type V = ErrorModel;

    open spec fn view(&self) -> ErrorModel {
        match self {
            ReplayError::UnsupportedFormat => ErrorModel::UnsupportedFormat,
            ReplayError::IoError(cause) => ErrorModel::IoError(cause@),
            ReplayError::CorruptReplay(damage) => ErrorModel::CorruptReplay(*damage),
        }
    }
}

/// The cause shown to the operator for each kind of damage.
pub open spec fn corruption_text(damage: Corruption) -> Seq<char> {
    match damage {
        Corruption::MissingMetadata => "metadata missing"@,
        Corruption::MissingStream => "binary stream missing"@,
        Corruption::BadBase64 => "bad base64"@,
        Corruption::TruncatedHeader => "stream shorter than its header"@,
        Corruption::BadCompressedStream => "bad compressed stream"@,
    }
}

/// The cause shown to the operator for each error.
pub open spec fn error_text(error: ErrorModel) -> Seq<char> {
    match error {
        ErrorModel::UnsupportedFormat => "unknown replay format"@,
        ErrorModel::IoError(cause) => cause,
        ErrorModel::CorruptReplay(damage) => corruption_text(damage),
    }
}

/// The cause reported when a line of the container is not valid UTF-8.
pub open spec fn invalid_text_cause() -> Seq<char> {
    "stream did not contain valid UTF-8"@
}

impl Corruption {
    /// A human-readable cause.
    pub fn message(&self) -> (text: String)
        ensures
            text@ == corruption_text(*self),
    {
        match self {
            Corruption::MissingMetadata => "metadata missing".to_owned(),
            Corruption::MissingStream => "binary stream missing".to_owned(),
            Corruption::BadBase64 => "bad base64".to_owned(),
            Corruption::TruncatedHeader => "stream shorter than its header".to_owned(),
            Corruption::BadCompressedStream => "bad compressed stream".to_owned(),
        }
    }
}

impl ReplayError {
    /// A human-readable cause.
    pub fn message(&self) -> (text: String)
        ensures
            text@ == error_text(self@),
    {
        match self {
            ReplayError::UnsupportedFormat => "unknown replay format".to_owned(),
            ReplayError::IoError(cause) => cause.clone(),
            ReplayError::CorruptReplay(damage) => damage.message(),
        }
    }

    /// The error for a line that is not valid UTF-8.
    pub fn invalid_text() -> (error: ReplayError)
        ensures
            error@ == ErrorModel::IoError(invalid_text_cause()),
    {
        ReplayError::IoError("stream did not contain valid UTF-8".to_owned())
    }
}

} // verus!
