//! Compression and decompression of framed buffers. The LZMA work itself is
//! done by the `xz2` crate (liblzma); this module frames its output and
//! unframes its input, and that framing is what is verified.

use crate::frame::fix_header_size;
use crate::frame::framed;
use crate::frame::size_prefix;
use crate::frame::unknown_size_field;
use crate::frame::with_declared_size;
use std::io::Read;
use vstd::bytes::spec_u64_to_le_bytes;
use vstd::prelude::*;
use vstd::slice::slice_subrange;
use vstd::slice::slice_to_vec;

verus! {

/// Compression preset level handed to the encoder.
pub const LZMA_PRESET: u32 = 6;

/// Dictionary size handed to the encoder: 32 MiB.
pub const LZMA_DICT_SIZE: u32 = 33554432;

/// What can go wrong while compressing or decompressing.
#[derive(Clone, Copy, Debug, PartialEq, Eq)]
pub enum CodecError {
    /// The codec could not be set up with the requested parameters.
    InitFailure,
    /// The codec failed while encoding or decoding the bytes it was fed.
    ReadFailure,
    /// A buffer handed to `decompress` is shorter than the five-byte prefix.
    TruncatedInput,
}

/// The outcome that the `.lzma` format assigns to a byte sequence: `Some`
/// of the decoded bytes where the sequence is a valid `.lzma` stream, `None`
/// where it is not. The format fixes this from the bytes alone, as liblzma
/// 5.2.6 and later read it (a stream may declare its size and still carry
/// the end-of-payload marker).
pub uninterp spec fn lzma_alone_decoded(stream: Seq<u8>) -> Option<Seq<u8>>;

/// The `.lzma` stream that the encoder at `LZMA_PRESET` with a
/// `LZMA_DICT_SIZE` dictionary produces for a byte sequence. With the preset
/// and dictionary fixed, the encoder draws on no randomness, clock or
/// environment, so its output is a function of the input bytes alone.
pub uninterp spec fn lzma_alone_encoded(data: Seq<u8>) -> Seq<u8>;

/// Relies on xz2 (liblzma): `Stream::new_lzma_encoder` at `LZMA_PRESET` with
/// a `LZMA_DICT_SIZE` dictionary, run over the whole buffer through
/// `read::XzEncoder`. The produced `.lzma` stream begins with the thirteen-byte
/// header, carries the "unknown size" placeholder in its size field, and —
/// once that field is set to the input's length — the format (the reading of
/// `lzma_alone_decoded`) assigns the stream exactly the input bytes back.
/// Failures are either the encoder refusing its parameters or an error while
/// it runs.
#[verifier::external_body]
fn lzma_alone_compress(data: &Vec<u8>) -> (r: Result<Vec<u8>, CodecError>)
    ensures
        r matches Ok(out) ==> out@ == lzma_alone_encoded(data@),
        r matches Ok(out) ==> out@.len() >= 13,
        r matches Ok(out) ==> out@.subrange(5, 13) == unknown_size_field(),
        r matches Ok(out) ==> lzma_alone_decoded(
            with_declared_size(out@, data@.len() as u64),
        ) == Some(data@),
        r matches Err(e) ==> e == CodecError::InitFailure || e == CodecError::ReadFailure,
{
    let mut opts = match xz2::stream::LzmaOptions::new_preset(LZMA_PRESET) {
        Ok(o) => o,
        Err(_) => return Err(CodecError::InitFailure),
    };
    let stream = match xz2::stream::Stream::new_lzma_encoder(opts.dict_size(LZMA_DICT_SIZE)) {
        Ok(s) => s,
        Err(_) => return Err(CodecError::InitFailure),
    };
    let mut encoder = xz2::read::XzEncoder::new_stream(data.as_slice(), stream);
    let mut out = Vec::new();
    match encoder.read_to_end(&mut out) {
        Ok(_) => Ok(out),
        Err(_) => Err(CodecError::ReadFailure),
    }
}

/// Relies on xz2 (liblzma): `Stream::new_lzma_decoder` with an unbounded
/// memory limit, run through `read::XzDecoder`. When the decoder succeeds,
/// its output is the one the `.lzma` format assigns to the bytes; it never
/// succeeds on bytes the format rejects. The converse is not stated: liblzma
/// releases before 5.2.6 also reject valid streams that declare their size
/// and still carry the end-of-payload marker — the very kind this library
/// frames — so a `ReadFailure` does not by itself mean corrupt input.
#[verifier::external_body]
fn lzma_alone_decompress(stream_bytes: &Vec<u8>) -> (r: Result<Vec<u8>, CodecError>)
    ensures
        r matches Ok(out) ==> lzma_alone_decoded(stream_bytes@) == Some(out@),
        r matches Err(e) ==> e == CodecError::ReadFailure || e == CodecError::InitFailure,
{
    let stream = match xz2::stream::Stream::new_lzma_decoder(u64::MAX) {
        Ok(s) => s,
        Err(_) => return Err(CodecError::InitFailure),
    };
    let mut decoder = xz2::read::XzDecoder::new_stream(stream_bytes.as_slice(), stream);
    let mut out = Vec::new();
    match decoder.read_to_end(&mut out) {
        Ok(_) => Ok(out),
        Err(_) => Err(CodecError::ReadFailure),
    }
}

/// Compresses `data` into a framed buffer: a `.lzma` stream of `data` whose
/// first five bytes are the low five little-endian bytes of `data`'s length,
/// and whose bytes `[10, 18)` hold the full eight-byte little-endian length
/// in place of the encoder's "unknown size" placeholder. The whole output is
/// a function of `data` alone; failures come only from the codec, either
/// refusing its parameters or erring while it runs.
pub fn compress(data: &Vec<u8>) -> (r: Result<Vec<u8>, CodecError>)
    ensures
        r matches Ok(out) ==> out@ == framed(lzma_alone_encoded(data@), data@.len() as u64),
        r matches Ok(out) ==> out@.len() >= 18,
        r matches Ok(out) ==> out@.subrange(0, 5) == size_prefix(data@.len() as u64),
        r matches Ok(out) ==> out@.subrange(10, 18) == spec_u64_to_le_bytes(data@.len() as u64),
        r matches Ok(out) ==> lzma_alone_decoded(out@.skip(5)) == Some(data@),
        r matches Err(e) ==> e == CodecError::InitFailure || e == CodecError::ReadFailure,
{
    let raw = match lzma_alone_compress(data) {
        Ok(raw) => raw,
        Err(e) => return Err(e),
    };
    let original_size: u64 = data.len() as u64;
    let mut out = raw;
    fix_header_size(original_size, &mut out);
    proof {
        vstd::bytes::lemma_auto_spec_u64_to_from_le_bytes();
        assert(out@.subrange(0, 5) =~= size_prefix(original_size));
        assert(out@.subrange(10, 18) =~= spec_u64_to_le_bytes(original_size));
        assert(out@.skip(5) =~= with_declared_size(raw@, original_size));
    }
    Ok(out)
}

/// Decompresses a framed buffer: skips the five-byte size prefix and decodes
/// the rest as a `.lzma` stream. Only the bytes from offset five on decide
/// the result; the prefix's value is never read. A successful result is
/// exactly what the format assigns to the payload — never anything else —
/// and a payload the format rejects never succeeds. Success itself is not
/// promised: besides codec setup failures, a linked liblzma older than 5.2.6
/// rejects the declared-size streams this library frames.
pub fn decompress(data: &Vec<u8>) -> (r: Result<Vec<u8>, CodecError>)
    ensures
        data@.len() < 5 ==> (r matches Err(e) && e == CodecError::TruncatedInput),
        (r matches Err(e) && e == CodecError::TruncatedInput) ==> data@.len() < 5,
        r matches Ok(out) ==> data@.len() >= 5 && lzma_alone_decoded(data@.skip(5)) == Some(
            out@,
        ),
        r matches Err(e) ==> (data@.len() >= 5 ==> e == CodecError::ReadFailure || e
            == CodecError::InitFailure),
{
    if data.len() < 5 {
        return Err(CodecError::TruncatedInput);
    }
    let payload = slice_to_vec(slice_subrange(data.as_slice(), 5, data.len()));
    proof {
        assert(payload@ =~= data@.skip(5));
    }
    lzma_alone_decompress(&payload)
}

/// Round trip: a framed buffer whose payload decodes to `plain` — as every
/// buffer that `compress` returns for input `plain` does — is taken back to
/// exactly `plain` by every successful `decompress`; in particular a
/// non-empty input comes back non-empty.
pub proof fn lemma_round_trip(plain: Seq<u8>, compressed: Seq<u8>, decoded: Seq<u8>)
    requires
        compressed.len() >= 5,
        lzma_alone_decoded(compressed.skip(5)) == Some(plain),
        lzma_alone_decoded(compressed.skip(5)) == Some(decoded),
    ensures
        decoded == plain,
        plain.len() > 0 ==> decoded.len() > 0,
{
}

/// Decoding ignores the five-byte prefix: two buffers that agree from byte
/// five on are decoded to the same outcome, whatever their prefixes hold.
pub proof fn lemma_decode_ignores_prefix(a: Seq<u8>, b: Seq<u8>)
    requires
        a.len() >= 5,
        b.len() >= 5,
        a.skip(5) == b.skip(5),
    ensures
        lzma_alone_decoded(a.skip(5)) == lzma_alone_decoded(b.skip(5)),
{
}

} // verus!
