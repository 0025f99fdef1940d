//! The decoders this library does not implement itself: base64, zlib and
//! the check that bytes are UTF-8.
//!
//! Nothing in this file is proved. Each decoder is given one contract here;
//! the rest of the library reasons from those contracts and never about the
//! algorithms behind them.

use vstd::prelude::*;
use vstd::utf8::{decode_utf8, valid_utf8};

verus! {

/// The error of `base64::decode_config`. It is carried through unread.
#[verifier::external_type_specification]
#[verifier::external_body]
pub struct ExDecodeError(base64::DecodeError);

/// The error of a failed read. It is carried through unread.
#[verifier::external_type_specification]
#[verifier::external_body]
pub struct ExIoError(std::io::Error);

/// The error of `core::str::from_utf8`. It is carried through unread.
#[verifier::external_type_specification]
#[verifier::external_body]
pub struct ExUtf8Error(core::str::Utf8Error);

/// `core::str::from_utf8` accepts exactly the byte sequences that are valid
/// UTF-8, and the text it hands back holds the characters they encode.
pub assume_specification<'a>[ core::str::from_utf8 ](bytes: &'a [u8]) -> (text: Result<
    &'a str,
    core::str::Utf8Error,
>)
    ensures
        text is Ok <==> valid_utf8(bytes@),
        text matches Ok(decoded) ==> decoded@ == decode_utf8(bytes@),
;

/// What `base64::decode_config` with the `STANDARD` configuration makes of a
/// text: the decoded bytes, or `None` where it reports a `DecodeError`.
pub uninterp spec fn base64_decoding(encoded: Seq<char>) -> Option<Seq<u8>>;

/// What reading a `flate2::read::ZlibDecoder` over a byte stream to its end
/// yields: the inflated bytes, or `None` where the read reports an error.
pub uninterp spec fn zlib_inflation(stream: Seq<u8>) -> Option<Seq<u8>>;

/// The bytes that a decoder handed back, if it handed any back.
pub open spec fn decoded_bytes<E>(result: Result<Vec<u8>, E>) -> Option<Seq<u8>> {
    match result {
        Ok(bytes) => Some(bytes@),
        Err(_) => None,
    }
}

/// Calls `base64::decode_config` with `base64::STANDARD`, the standard
/// alphabet with padding. The contract claims only that the outcome depends
/// on the text alone: it is the outcome named `base64_decoding`.
#[verifier::external_body]
pub(crate) fn base64_decode(encoded: &str) -> (decoded: Result<Vec<u8>, base64::DecodeError>)
    ensures
        decoded_bytes(decoded) == base64_decoding(encoded@),
{
    base64::decode_config(encoded, base64::STANDARD)
}

/// Wraps the stream in a `flate2::read::ZlibDecoder` and reads it to the end
/// with `std::io::Read::read_to_end`. The contract claims only that the
/// outcome depends on the stream alone: it is the outcome named
/// `zlib_inflation`.
#[verifier::external_body]
pub(crate) fn zlib_inflate(stream: &[u8]) -> (inflated: Result<Vec<u8>, std::io::Error>)
    ensures
        decoded_bytes(inflated) == zlib_inflation(stream@),
{
    let mut decoder = flate2::read::ZlibDecoder::new(stream);
    let mut output = Vec::new();
    match std::io::Read::read_to_end(&mut decoder, &mut output) {
        Ok(_) => Ok(output),
        Err(error) => Err(error),
    }
}

} // verus!
