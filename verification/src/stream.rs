//! Decoding the replay stream of a legacy container.
//!
//! The stream is base64 text. Decoded, it is a header of four bytes followed
//! by a zlib stream, and the zlib stream inflates to the raw replay.

use vstd::prelude::*;
use vstd::slice::{slice_subrange, slice_to_vec};
use crate::codec::{base64_decode, base64_decoding, decoded_bytes, zlib_inflate, zlib_inflation};
use crate::error::{Corruption, ErrorModel, ReplayError};

verus! {

/// The number of bytes in front of the compressed payload. The producer of
/// the container keeps a length there; it is dropped unread.
pub const HEADER_LEN: usize = 4;

/// The outcome of a step that yields bytes, as a mathematical value.
pub open spec fn outcome(result: Result<Vec<u8>, ReplayError>) -> Result<Seq<u8>, ErrorModel> {
    match result {
        Ok(bytes) => Ok(bytes@),
        Err(error) => Err(error@),
    }
}

/// The compressed payload inside what base64 decoding gave, `None` standing
/// for text that is not base64.
pub open spec fn payload_of(decoded: Option<Seq<u8>>) -> Result<Seq<u8>, ErrorModel> {
    match decoded {
        None => Err(ErrorModel::CorruptReplay(Corruption::BadBase64)),
        Some(framed) => if framed.len() < HEADER_LEN {
            Err(ErrorModel::CorruptReplay(Corruption::TruncatedHeader))
        } else {
            Ok(framed.skip(HEADER_LEN as int))
        },
    }
}

/// The raw replay in what inflating gave, `None` standing for a payload that
/// is not a complete zlib stream.
pub open spec fn replay_of(inflated: Option<Seq<u8>>) -> Result<Seq<u8>, ErrorModel> {
    match inflated {
        None => Err(ErrorModel::CorruptReplay(Corruption::BadCompressedStream)),
        Some(raw) => Ok(raw),
    }
}

/// The raw replay that a replay stream stands for: base64 decoding, then the
/// header dropped, then zlib inflation, the first failure ending it.
pub open spec fn stream_decoding(encoded: Seq<char>) -> Result<Seq<u8>, ErrorModel> {
    match payload_of(base64_decoding(encoded)) {
        Err(error) => Err(error),
        Ok(payload) => replay_of(zlib_inflation(payload)),
    }
}

/// Takes the compressed payload out of the result of base64 decoding: a
/// decoding error is reported as bad base64, fewer bytes than the header as
/// a truncated header, and otherwise everything behind the header is handed on.
pub fn compressed_payload(decoded: Result<Vec<u8>, base64::DecodeError>) -> (payload: Result<
    Vec<u8>,
    ReplayError,
>)
    ensures
        outcome(payload) == payload_of(decoded_bytes(decoded)),
{
    match decoded {
        Err(_) => Err(ReplayError::CorruptReplay(Corruption::BadBase64)),
        Ok(framed) => {
            if framed.len() < HEADER_LEN {
                Err(ReplayError::CorruptReplay(Corruption::TruncatedHeader))
            } else {
                let behind = slice_subrange(framed.as_slice(), HEADER_LEN, framed.len());
                Ok(slice_to_vec(behind))
            }
        },
    }
}

/// Takes the raw replay out of the result of inflating: a read error is
/// reported as a bad compressed stream, and otherwise the bytes are handed
/// on unchanged.
pub fn inflated_replay(inflated: Result<Vec<u8>, std::io::Error>) -> (replay: Result<
    Vec<u8>,
    ReplayError,
>)
    ensures
        outcome(replay) == replay_of(decoded_bytes(inflated)),
{
    match inflated {
        Err(_) => Err(ReplayError::CorruptReplay(Corruption::BadCompressedStream)),
        Ok(raw) => Ok(raw),
    }
}

/// Decodes the replay stream of a legacy container into the raw replay.
///
/// The stages run in order and the first failure ends the decoding: text that
/// is not base64 never reaches the header check, and a stream shorter than
/// its header never reaches the inflater.
pub fn convert_legacy_replay_stream_to_raw(base64_stream: &str) -> (raw: Result<
    Vec<u8>,
    ReplayError,
>)
    ensures
        outcome(raw) == stream_decoding(base64_stream@),
{
    match compressed_payload(base64_decode(base64_stream)) {
        Err(error) => Err(error),
        Ok(payload) => inflated_replay(zlib_inflate(payload.as_slice())),
    }
}

/// Decoding undoes the framing: where the text is the base64 form of a
/// header of four bytes followed by a compressed payload, and the payload
/// inflates to some bytes, decoding the text yields exactly those bytes.
pub proof fn lemma_framed_stream_decodes(
    encoded: Seq<char>,
    header: Seq<u8>,
    compressed: Seq<u8>,
    raw: Seq<u8>,
)
    requires
        header.len() == HEADER_LEN,
        base64_decoding(encoded) == Some(header + compressed),
        zlib_inflation(compressed) == Some(raw),
    ensures
        stream_decoding(encoded) == Ok::<Seq<u8>, ErrorModel>(raw),
{
    assert((header + compressed).skip(HEADER_LEN as int) =~= compressed);
}

/// Text that is not base64 is reported as such, whatever the inflater would
/// make of anything: decoding ends before the payload is looked for.
pub proof fn lemma_bad_base64_ends_decoding(encoded: Seq<char>)
    requires
        base64_decoding(encoded) is None,
    ensures
        stream_decoding(encoded) == Err::<Seq<u8>, ErrorModel>(
            ErrorModel::CorruptReplay(Corruption::BadBase64),
        ),
{
}

/// A stream that decodes to fewer bytes than the header is damaged; the
/// header is never cut from bytes that are not there.
pub proof fn lemma_short_stream_is_corrupt(encoded: Seq<char>, framed: Seq<u8>)
    requires
        base64_decoding(encoded) == Some(framed),
        framed.len() < HEADER_LEN,
    ensures
        stream_decoding(encoded) == Err::<Seq<u8>, ErrorModel>(
            ErrorModel::CorruptReplay(Corruption::TruncatedHeader),
        ),
{
}

/// A payload that does not inflate is damage, however well the base64 and
/// the header around it are formed.
pub proof fn lemma_bad_payload_is_corrupt(encoded: Seq<char>, framed: Seq<u8>)
    requires
        base64_decoding(encoded) == Some(framed),
        framed.len() >= HEADER_LEN,
        zlib_inflation(framed.skip(HEADER_LEN as int)) is None,
    ensures
        stream_decoding(encoded) == Err::<Seq<u8>, ErrorModel>(
            ErrorModel::CorruptReplay(Corruption::BadCompressedStream),
        ),
{
}

} // verus!
