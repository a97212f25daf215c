//! The gzip codec, as far as the rotation engine relies on it.
//!
//! The codec itself is `libflate`'s and is not verified. What the engine needs
//! of it is one fact: a stream that the encoder produced decodes to the bytes
//! that went in. That fact is stated over [`gzip_decoded`], the name given to
//! what the decoder yields.
use crate::protocol::ErrorKind;
use vstd::prelude::*;

verus! {

#[verifier::external_type_specification]
#[verifier::external_body]
pub struct ExIoError(std::io::Error);

/// What `libflate::gzip::Decoder` yields when `stream` is read through it to
/// the end: the decoded bytes, or `None` where it reports an error.
pub uninterp spec fn gzip_decoded(stream: Seq<u8>) -> Option<Seq<u8>>;

/// Encodes `data` as one gzip stream.
///
/// Trusted: the body runs `libflate::gzip::Encoder` over an in-memory buffer
/// with `Encoder::new`, `write_all` and `finish`. The stream carries the time
/// of encoding in its header, so it is not a function of `data`. What is
/// claimed of every stream that comes back is the codec's round trip: read
/// through `libflate::gzip::Decoder`, it yields `data` again.
#[verifier::external_body]
fn gzip_encode(data: &[u8]) -> (result: Result<Vec<u8>, std::io::Error>)
    ensures
        result matches Ok(stream) ==> gzip_decoded(stream@) == Some(data@),
{
    let mut encoder = libflate::gzip::Encoder::new(Vec::new())?;
    std::io::Write::write_all(&mut encoder, data)?;
    encoder.finish().into_result()
}

/// Decodes one gzip stream.
///
/// Trusted: the body reads `stream` to the end through
/// `libflate::gzip::Decoder`. Decoding depends on the bytes alone, and
/// [`gzip_decoded`] is the name of its result.
#[verifier::external_body]
fn gzip_decode(stream: &[u8]) -> (result: Result<Vec<u8>, std::io::Error>)
    ensures
        match result {
            Ok(data) => gzip_decoded(stream@) == Some(data@),
            Err(_) => gzip_decoded(stream@) is None,
        },
{
    let mut decoder = libflate::gzip::Decoder::new(stream)?;
    let mut data = Vec::new();
    std::io::Read::read_to_end(&mut decoder, &mut data)?;
    Ok(data)
}

/// Compresses the bytes of a retired file.
///
/// Whether the encoder succeeds is its own affair; a stream that it hands
/// back decodes to `data`, and the only error is `CompressionFailed`.
pub fn compress(data: &[u8]) -> (result: Result<Vec<u8>, ErrorKind>)
    ensures
        match result {
            Ok(stream) => gzip_decoded(stream@) == Some(data@),
            Err(kind) => kind == ErrorKind::CompressionFailed,
        },
{
    match gzip_encode(data) {
        Ok(stream) => Ok(stream),
        Err(_) => Err(ErrorKind::CompressionFailed),
    }
}

/// Decompresses a compressed backup: the bytes that [`gzip_decoded`] names,
/// or `None` where the stream is not one that the decoder accepts.
pub fn decompress(stream: &[u8]) -> (result: Option<Vec<u8>>)
    ensures
        match result {
            Some(data) => gzip_decoded(stream@) == Some(data@),
            None => gzip_decoded(stream@) is None,
        },
{
    match gzip_decode(stream) {
        Ok(data) => Some(data),
        Err(_) => None,
    }
}

} // verus!
