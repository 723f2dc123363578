//! The codec adapter: gzip compression and decompression of finite byte
//! sequences held in memory, with failures surfaced as structured values.
//!
//! Every call is an independent, stateless transform: the input buffer is
//! only read, and the caller receives either the complete output or an
//! error, never a partial result presented as success.

use vstd::prelude::*;
use std::io::Read;
use std::io::Write;

verus! {

/// The gzip framing of a byte sequence at the default compression level:
/// a fixed ten-byte header, a DEFLATE body, and a CRC32/length trailer.
pub uninterp spec fn gzip_of(b: Seq<u8>) -> Seq<u8>;

/// What decompressing a byte sequence yields: the payload of the gzip
/// member the sequence begins with, when that member is complete and well
/// formed, and nothing otherwise.
pub uninterp spec fn gunzip_of(b: Seq<u8>) -> Option<Seq<u8>>;

/// The ways a codec call can fail.
#[derive(Clone, Copy, Debug, PartialEq, Eq, Structural)]
pub enum CodecError {
    /// Failure reading from or writing to an underlying stream.
    Io,
    /// The input to decompression is not valid gzip-framed data, or its
    /// checksum does not match.
    InvalidFormat,
}

/// The transform requested of one codec call.
#[derive(Clone, Copy, Debug, PartialEq, Eq, Structural)]
pub enum Operation {
    Compress,
    Decompress,
}

impl CodecError {
    /// The human-readable text for this error.
    pub open spec fn message_spec(self) -> Seq<char> {
        match self {
            CodecError::Io => "failure reading or writing the codec stream"@,
            CodecError::InvalidFormat => "input is not valid gzip data"@,
        }
    }

    /// A human-readable description of the failure, for diagnostics and
    /// response bodies.
    pub fn message(self) -> (r: &'static str)
        ensures
            r@ == self.message_spec(),
    {
        match self {
            CodecError::Io => "failure reading or writing the codec stream",
            CodecError::InvalidFormat => "input is not valid gzip data",
        }
    }
}

/// The byte sequences of a codec result, with the error carried through.
pub open spec fn outcome(r: Result<Vec<u8>, CodecError>) -> Result<Seq<u8>, CodecError> {
    match r {
        Ok(v) => Ok(v@),
        Err(e) => Err(e),
    }
}

/// Everything `compress` promises of a result `r` for an input `input`:
/// it succeeds — the output sink is a fresh in-memory buffer, which cannot
/// reject a write — and the result is exactly the gzip framing of the
/// input: non-empty, starting with the gzip magic bytes, and decompressing
/// back to the input.
pub open spec fn compress_post(input: Seq<u8>, r: Result<Seq<u8>, CodecError>) -> bool {
    &&& r == Ok::<Seq<u8>, CodecError>(gzip_of(input))
    &&& gunzip_of(gzip_of(input)) == Some(input)
    &&& gzip_of(input).len() >= 18
    &&& gzip_of(input)[0] == 0x1f
    &&& gzip_of(input)[1] == 0x8b
}

/// Everything `decompress` promises of a result `r` for an input `input`:
/// it succeeds with exactly the framed payload when the input is well
/// formed, and reports `InvalidFormat` otherwise.
pub open spec fn decompress_post(input: Seq<u8>, r: Result<Seq<u8>, CodecError>) -> bool {
    match r {
        Ok(v) => gunzip_of(input) == Some(v),
        Err(e) => e == CodecError::InvalidFormat && gunzip_of(input) is None,
    }
}

/// Relies on flate2's write::GzEncoder at Compression::default(): it frames
/// its input as one gzip member with a fixed ten-byte header (zero
/// timestamp and a constant operating-system byte, so the output is a
/// function of the input bytes alone), a DEFLATE body and an eight-byte
/// CRC32/length trailer, and it fails only when the sink rejects a write —
/// the sink here is a fresh in-memory buffer, whose writes are infallible,
/// so the call cannot fail; flate2's read::GzDecoder recovers the exact
/// input bytes from that frame.
#[verifier::external_body]
fn gz_encode(input: &Vec<u8>) -> (r: Result<Vec<u8>, CodecError>)
    ensures
        r is Ok,
        r matches Ok(v) ==> v@ == gzip_of(input@),
        r matches Ok(v) ==> gunzip_of(v@) == Some(input@),
        r matches Ok(v) ==> v@.len() >= 18 && v@[0] == 0x1f && v@[1] == 0x8b,
{
    let mut encoder = flate2::write::GzEncoder::new(Vec::new(), flate2::Compression::default());
    if encoder.write_all(input).is_err() {
        return Err(CodecError::Io);
    }
    match encoder.finish() {
        Ok(v) => Ok(v),
        Err(_) => Err(CodecError::Io),
    }
}

/// Relies on flate2's read::GzDecoder: reading it to the end yields the
/// decompressed payload of the gzip member its input begins with, and it
/// fails exactly when no complete well-formed member is there (wrong magic
/// bytes, malformed or truncated data, or a checksum mismatch); on an
/// in-memory input every failure is such a format failure.
#[verifier::external_body]
fn gz_decode(input: &Vec<u8>) -> (r: Result<Vec<u8>, CodecError>)
    ensures
        r is Ok <==> gunzip_of(input@) is Some,
        r matches Ok(v) ==> gunzip_of(input@) == Some(v@),
        r matches Err(e) ==> e == CodecError::InvalidFormat,
{
    let mut decoder = flate2::read::GzDecoder::new(input.as_slice());
    let mut out = Vec::new();
    match decoder.read_to_end(&mut out) {
        Ok(_) => Ok(out),
        Err(_) => Err(CodecError::InvalidFormat),
    }
}

/// Wraps the input in a gzip container at the default compression level,
/// finalized with its footer and checksum, so that decompressing the
/// result reproduces the input exactly. The output sink is an in-memory
/// buffer, so the call always succeeds.
pub fn compress(input: &Vec<u8>) -> (r: Result<Vec<u8>, CodecError>)
    ensures
        compress_post(input@, outcome(r)),
{
    gz_encode(input)
}

/// Reads the gzip header of the input, inflates the payload and validates
/// the trailing checksum, returning the original pre-compression bytes.
pub fn decompress(input: &Vec<u8>) -> (r: Result<Vec<u8>, CodecError>)
    ensures
        decompress_post(input@, outcome(r)),
{
    gz_decode(input)
}

/// Runs the one transform the operation asks for over the input buffer.
pub fn transform(op: Operation, input: &Vec<u8>) -> (r: Result<Vec<u8>, CodecError>)
    ensures
        op is Compress ==> compress_post(input@, outcome(r)),
        op is Decompress ==> decompress_post(input@, outcome(r)),
{
    match op {
        Operation::Compress => compress(input),
        Operation::Decompress => decompress(input),
    }
}

/// Round trip: when compressing `b` succeeds with `c`, any outcome of
/// decompressing `c` is a success returning exactly `b`.
pub proof fn lemma_round_trip(b: Seq<u8>, c: Seq<u8>, d: Result<Seq<u8>, CodecError>)
    requires
        compress_post(b, Ok(c)),
        decompress_post(c, d),
    ensures
        d == Ok::<Seq<u8>, CodecError>(b),
{
}

/// Deterministic compression: two outcomes of compressing the same input
/// are byte-identical successes.
pub proof fn lemma_compress_deterministic(
    b: Seq<u8>,
    r1: Result<Seq<u8>, CodecError>,
    r2: Result<Seq<u8>, CodecError>,
)
    requires
        compress_post(b, r1),
        compress_post(b, r2),
    ensures
        r1 == r2,
        r1 is Ok,
{
}

/// Deterministic decompression: two outcomes of decompressing the same
/// input are identical, failures included.
pub proof fn lemma_decompress_deterministic(
    b: Seq<u8>,
    r1: Result<Seq<u8>, CodecError>,
    r2: Result<Seq<u8>, CodecError>,
)
    requires
        decompress_post(b, r1),
        decompress_post(b, r2),
    ensures
        r1 == r2,
{
}

} // verus!
