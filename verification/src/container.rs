//! Taking a legacy container apart.
//!
//! A legacy container is a text file of two lines: metadata, conventionally
//! JSON, and the replay stream. Lines end at a line feed, and a carriage
//! return in front of that line feed belongs to the terminator. Whatever
//! follows the second line is never looked at.

use vstd::prelude::*;
use vstd::slice::slice_subrange;
use vstd::utf8::{decode_utf8, valid_utf8};
use crate::error::{invalid_text_cause, Corruption, ErrorModel, ReplayError};
use crate::stream::{convert_legacy_replay_stream_to_raw, outcome, stream_decoding};

verus! {

/// The byte that ends a line.
pub const LINE_FEED: u8 = 10;

/// The byte that is dropped with the line feed it stands in front of.
pub const CARRIAGE_RETURN: u8 = 13;

/// The two lines of a legacy container.
#[derive(Clone, Debug, PartialEq, Eq)]
pub struct LegacyContainer {
    /// The first line. By convention JSON; it is kept as it stands.
    pub metadata_line: String,
    /// The second line: the replay stream in base64.
    pub encoded_stream: String,
}

/// A `LegacyContainer` as a mathematical value.
pub struct ContainerModel {
    pub metadata_line: Seq<char>,
    pub encoded_stream: Seq<char>,
}

impl View for LegacyContainer {
    type V = ContainerModel;

    open spec fn view(&self) -> ContainerModel {
        ContainerModel {
            metadata_line: self.metadata_line@,
            encoded_stream: self.encoded_stream@,
        }
    }
}

/// The number of bytes in front of the first line feed, or the number of all
/// bytes where there is no line feed.
pub open spec fn line_length(bytes: Seq<u8>) -> nat
    decreases bytes.len(),
{
    if bytes.len() == 0 || bytes[0] == LINE_FEED {
        0
    } else {
        1 + line_length(bytes.skip(1))
    }
}

/// The first line without its terminator. A carriage return is part of the
/// terminator only where a line feed follows it.
pub open spec fn first_line(bytes: Seq<u8>) -> Seq<u8> {
    let n = line_length(bytes) as int;
    if 0 < n < bytes.len() && bytes[n - 1] == CARRIAGE_RETURN {
        bytes.take(n - 1)
    } else {
        bytes.take(n)
    }
}

/// What follows the first line and its terminator.
pub open spec fn after_first_line(bytes: Seq<u8>) -> Seq<u8> {
    let n = line_length(bytes) as int;
    if n < bytes.len() {
        bytes.skip(n + 1)
    } else {
        Seq::empty()
    }
}

/// The container held in the bytes of a file. There is a line wherever a
/// byte is left to read; each of the two lines must be UTF-8.
pub open spec fn container_parsing(content: Seq<u8>) -> Result<ContainerModel, ErrorModel> {
    let rest = after_first_line(content);
    if content.len() == 0 {
        Err(ErrorModel::CorruptReplay(Corruption::MissingMetadata))
    } else if !valid_utf8(first_line(content)) {
        Err(ErrorModel::IoError(invalid_text_cause()))
    } else if rest.len() == 0 {
        Err(ErrorModel::CorruptReplay(Corruption::MissingStream))
    } else if !valid_utf8(first_line(rest)) {
        Err(ErrorModel::IoError(invalid_text_cause()))
    } else {
        Ok(
            ContainerModel {
                metadata_line: decode_utf8(first_line(content)),
                encoded_stream: decode_utf8(first_line(rest)),
            },
        )
    }
}

/// The raw replay held in the bytes of a legacy container.
pub open spec fn container_extraction(content: Seq<u8>) -> Result<Seq<u8>, ErrorModel> {
    match container_parsing(content) {
        Err(error) => Err(error),
        Ok(container) => stream_decoding(container.encoded_stream),
    }
}

/// The outcome of parsing, as a mathematical value.
pub open spec fn parsed(result: Result<LegacyContainer, ReplayError>) -> Result<
    ContainerModel,
    ErrorModel,
> {
    match result {
        Ok(container) => Ok(container@),
        Err(error) => Err(error@),
    }
}

/// `line_length` is the position of the first line feed: the one index that
/// has no line feed in front of it and either holds one or is the end.
pub proof fn lemma_line_length(bytes: Seq<u8>, n: int)
    requires
        0 <= n <= bytes.len(),
        forall|j: int| 0 <= j < n ==> bytes[j] != LINE_FEED,
        n == bytes.len() || bytes[n] == LINE_FEED,
    ensures
        line_length(bytes) == n,
    decreases n,
{
    if n > 0 {
        let tail = bytes.skip(1);
        assert(bytes[0] != LINE_FEED);
        assert forall|j: int| 0 <= j < n - 1 implies tail[j] != LINE_FEED by {
            assert(tail[j] == bytes[j + 1]);
        }
        lemma_line_length(tail, n - 1);
    }
}

/// Splits bytes into their first line and what follows it.
pub fn split_line(bytes: &[u8]) -> (parts: (&[u8], &[u8]))
    ensures
        parts.0@ == first_line(bytes@),
        parts.1@ == after_first_line(bytes@),
{
    let len = bytes.len();
    let mut n: usize = 0;
    while n < len && bytes[n] != LINE_FEED
        invariant
            n <= len,
            len == bytes@.len(),
            forall|j: int| 0 <= j < n ==> bytes@[j] != LINE_FEED,
        decreases len - n,
    {
        n += 1;
    }
    proof {
        lemma_line_length(bytes@, n as int);
    }
    if n == len {
        (bytes, slice_subrange(bytes, len, len))
    } else if n > 0 && bytes[n - 1] == CARRIAGE_RETURN {
        (slice_subrange(bytes, 0, n - 1), slice_subrange(bytes, n + 1, len))
    } else {
        (slice_subrange(bytes, 0, n), slice_subrange(bytes, n + 1, len))
    }
}

/// Reads the two lines of a legacy container out of the bytes of its file.
///
/// A file without any byte lacks its metadata, and a file that ends with its
/// first line lacks its replay stream: both are damage, not empty lines. A
/// line that is not UTF-8 is a failure to read. The metadata is not
/// examined beyond that.
pub fn parse_legacy_container(content: &[u8]) -> (container: Result<LegacyContainer, ReplayError>)
    ensures
        parsed(container) == container_parsing(content@),
{
    if content.len() == 0 {
        return Err(ReplayError::CorruptReplay(Corruption::MissingMetadata));
    }
    let (first, rest) = split_line(content);
    let metadata_line = match core::str::from_utf8(first) {
        Ok(text) => text.to_owned(),
        Err(_) => {
            return Err(ReplayError::invalid_text());
        },
    };
    if rest.len() == 0 {
        return Err(ReplayError::CorruptReplay(Corruption::MissingStream));
    }
    let (second, _) = split_line(rest);
    let encoded_stream = match core::str::from_utf8(second) {
        Ok(text) => text.to_owned(),
        Err(_) => {
            return Err(ReplayError::invalid_text());
        },
    };
    Ok(LegacyContainer { metadata_line, encoded_stream })
}

/// Extracts the raw replay from the bytes of a legacy container: the
/// container is parsed, and its second line is decoded.
pub fn extract_faf_legacy_replay(content: &[u8]) -> (raw: Result<Vec<u8>, ReplayError>)
    ensures
        outcome(raw) == container_extraction(content@),
{
    match parse_legacy_container(content) {
        Err(error) => Err(error),
        Ok(container) => convert_legacy_replay_stream_to_raw(container.encoded_stream.as_str()),
    }
}

/// A container whose first line is readable and which holds nothing after
/// that line lacks its replay stream. That is damage: no container is
/// parsed and nothing is decoded, not even an empty stream.
pub proof fn lemma_missing_stream_is_corrupt(content: Seq<u8>)
    requires
        content.len() > 0,
        valid_utf8(first_line(content)),
        after_first_line(content).len() == 0,
    ensures
        container_parsing(content) == Err::<ContainerModel, ErrorModel>(
            ErrorModel::CorruptReplay(Corruption::MissingStream),
        ),
        container_extraction(content) == Err::<Seq<u8>, ErrorModel>(
            ErrorModel::CorruptReplay(Corruption::MissingStream),
        ),
{
}

/// Whether the first line ends with a line feed rather than with the bytes.
pub open spec fn first_line_is_terminated(bytes: Seq<u8>) -> bool {
    line_length(bytes) < bytes.len()
}

/// A line that a line feed has ended is not changed by what is appended to
/// the bytes: the appended bytes all come after it.
pub proof fn lemma_terminated_line_is_kept(bytes: Seq<u8>, extra: Seq<u8>)
    requires
        first_line_is_terminated(bytes),
    ensures
        line_length(bytes + extra) == line_length(bytes),
        first_line(bytes + extra) == first_line(bytes),
        after_first_line(bytes + extra) == after_first_line(bytes) + extra,
    decreases bytes.len(),
{
    let longer = bytes + extra;
    assert(longer[0] == bytes[0]);
    if bytes[0] != LINE_FEED {
        assert(longer.skip(1) =~= bytes.skip(1) + extra);
        lemma_terminated_line_is_kept(bytes.skip(1), extra);
    }
    let n = line_length(bytes) as int;
    assert(n > 0 ==> longer[n - 1] == bytes[n - 1]);
    assert(longer.take(n) =~= bytes.take(n));
    assert(n > 0 ==> longer.take(n - 1) =~= bytes.take(n - 1));
    assert(longer.skip(n + 1) =~= bytes.skip(n + 1) + extra);
}

/// Nothing behind the second line matters: once a line feed has ended the
/// second line, whatever is appended to the file leaves the container, and
/// the replay in it, as they were.
pub proof fn lemma_trailing_content_is_ignored(content: Seq<u8>, extra: Seq<u8>)
    requires
        first_line_is_terminated(content),
        first_line_is_terminated(after_first_line(content)),
    ensures
        container_parsing(content + extra) == container_parsing(content),
        container_extraction(content + extra) == container_extraction(content),
{
    lemma_terminated_line_is_kept(content, extra);
    lemma_terminated_line_is_kept(after_first_line(content), extra);
}

} // verus!
