//! The compressed frame that wraps some lumps: a 17-byte envelope
//! (`"LZMA"`, uncompressed size, compressed size, 5 bytes of codec
//! properties) followed by the compressed stream.
use vstd::prelude::*;
use crate::bytes::{le_u32, read_u32, slice_range};
use crate::error::BspError;

verus! {

/// Length of the envelope in front of the compressed payload.
pub const FRAME_HEADER_LEN: usize = 17;

/// The bytes an LZMA stream decodes to, given its unpacked size.
pub uninterp spec fn lzma_decoded(stream: Seq<u8>, unpacked_size: nat) -> Seq<u8>;

/// The LZMA stream decodes without error to the given unpacked size.
pub uninterp spec fn lzma_decodes(stream: Seq<u8>, unpacked_size: nat) -> bool;

/// Relies on `lzma_rs::lzma_decompress_with_options`, told that the stream
/// starts with the properties byte and the dictionary size and that the unpacked
/// size is given: whether it succeeds, and the bytes it then has written
/// (exactly that many), depend on the stream and the size alone. Its `IoError` is handed on as
/// `BspError::IO`, each of its other failures as `BspError::LumpDecompressError`.
#[verifier::external_body]
fn lzma_decode(stream: &[u8], unpacked_size: u32) -> (r: Result<Vec<u8>, BspError>)
    ensures
        r is Ok <==> lzma_decodes(stream@, unpacked_size as nat),
        r is Ok ==> r->Ok_0@ == lzma_decoded(stream@, unpacked_size as nat),
        r is Ok ==> r->Ok_0@.len() == unpacked_size,
        r is Err ==> r->Err_0 is IO || r->Err_0 is LumpDecompressError,
{
    let mut input = stream;
    let mut output = Vec::new();
    let options = lzma_rs::decompress::Options {
        unpacked_size: lzma_rs::decompress::UnpackedSize::UseProvided(Some(unpacked_size as u64)),
        memlimit: None,
        allow_incomplete: false,
    };
    match lzma_rs::lzma_decompress_with_options(&mut input, &mut output, &options) {
        Ok(()) => Ok(output),
        Err(lzma_rs::error::Error::IoError(e)) => Err(BspError::IO(e)),
        Err(e) => Err(BspError::LumpDecompressError(e)),
    }
}

/// A result with its bytes seen as a sequence.
pub open spec fn viewed<T: View<V = Seq<u8>>>(r: Result<T, BspError>) -> Result<Seq<u8>, BspError> {
    match r {
        Ok(v) => Ok(v@),
        Err(e) => Err(e),
    }
}

/// The envelope is complete and starts with the ASCII magic `"LZMA"`.
pub open spec fn frame_envelope_ok(raw: Seq<u8>) -> bool {
    &&& raw.len() >= FRAME_HEADER_LEN
    &&& raw[0] == 0x4c && raw[1] == 0x5a && raw[2] == 0x4d && raw[3] == 0x41
}

/// Uncompressed size declared by the envelope.
pub open spec fn frame_uncompressed_size(raw: Seq<u8>) -> u32 {
    le_u32(raw, 4)
}

/// Compressed size declared by the envelope.
pub open spec fn frame_compressed_size(raw: Seq<u8>) -> u32 {
    le_u32(raw, 8)
}

/// The stream handed to the codec: the five property bytes of the envelope and
/// the payload, which must be exactly the declared number of bytes.
pub open spec fn frame_stream(raw: Seq<u8>) -> Seq<u8> {
    raw.subrange(12, FRAME_HEADER_LEN + frame_compressed_size(raw))
}

/// The outcomes that decoding the frame `raw` with expected size `expected` may
/// have: one error for each envelope check, in order, and past them what the
/// codec gives.
pub open spec fn frame_outcome(raw: Seq<u8>, expected: u64, r: Result<Seq<u8>, BspError>) -> bool {
    if !frame_envelope_ok(raw) {
        r == Err::<Seq<u8>, BspError>(BspError::MalformedData)
    } else if frame_uncompressed_size(raw) as u64 != expected {
        r == Err::<Seq<u8>, BspError>(BspError::UnexpectedUncompressedLumpSize {
            got: frame_uncompressed_size(raw),
            expected,
        })
    } else if raw.len() - FRAME_HEADER_LEN != frame_compressed_size(raw) {
        r == Err::<Seq<u8>, BspError>(BspError::UnexpectedCompressedLumpSize {
            got: (raw.len() - FRAME_HEADER_LEN) as u64,
            expected: frame_compressed_size(raw),
        })
    } else {
        &&& r is Ok <==> lzma_decodes(frame_stream(raw), expected as nat)
        &&& r is Ok ==> r->Ok_0 == lzma_decoded(frame_stream(raw), expected as nat)
        &&& r is Ok ==> r->Ok_0.len() == expected
        &&& r is Err ==> r->Err_0 is IO || r->Err_0 is LumpDecompressError
    }
}

/// Decodes a compressed frame whose uncompressed size must be `expected`.
/// A result of any other length than `expected` is never returned.
pub fn lzma_decompress_with_header(raw: &[u8], expected: u64) -> (r: Result<Vec<u8>, BspError>)
    ensures
        frame_outcome(raw@, expected, viewed(r)),
        r is Ok ==> r->Ok_0@.len() == expected,
{
    if raw.len() < FRAME_HEADER_LEN || raw[0] != 0x4c || raw[1] != 0x5a || raw[2] != 0x4d
        || raw[3] != 0x41 {
        return Err(BspError::MalformedData);
    }
    let actual_size = read_u32(raw, 4);
    let lzma_size = read_u32(raw, 8);
    if actual_size as u64 != expected {
        return Err(BspError::UnexpectedUncompressedLumpSize { got: actual_size, expected });
    }
    let available = raw.len() - FRAME_HEADER_LEN;
    if available as u64 != lzma_size as u64 {
        return Err(BspError::UnexpectedCompressedLumpSize {
            got: available as u64,
            expected: lzma_size,
        });
    }
    let end = FRAME_HEADER_LEN + lzma_size as usize;
    let stream = slice_range(raw, 12, end);
    lzma_decode(stream, actual_size)
}

} // verus!
