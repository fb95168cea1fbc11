//! Gzip compression of a byte buffer, confirmed by decoding.
//!
//! `compress` encodes a buffer as one gzip member and hands the stream out
//! only after it has decoded the stream again and found the source in it.
//! `expand` is the decoder on its own.

use crate::failure::Failure;
use flate2::read::GzDecoder;
use flate2::write::GzEncoder;
use flate2::Compression;
use std::io::Read;
use std::io::Write;
use vstd::prelude::*;

verus! {

/// The gzip stream that `flate2`'s `GzEncoder`, at the default compression
/// level and with the default header, writes into memory for the given
/// bytes, or `None` where it reports an error.
pub uninterp spec fn gzip_encoded(data: Seq<u8>) -> Option<Seq<u8>>;

/// What `flate2`'s `GzDecoder` reads out of the given bytes: the content of
/// the gzip member they begin with, or `None` where it reports an error.
pub uninterp spec fn gzip_decoded(stream: Seq<u8>) -> Option<Seq<u8>>;

/// A finished gzip stream with the two lengths that are reported of it.
#[derive(Clone, Debug, PartialEq, Eq)]
pub struct Compressed {
    /// The gzip stream.
    pub bytes: Vec<u8>,
    /// The number of bytes that went in.
    pub source_len: u64,
    /// The number of bytes in the stream.
    pub target_len: u64,
}

/// Whether the encoder writes a stream for `data` and the decoder reads
/// `data` back out of it.
pub open spec fn round_trips(data: Seq<u8>) -> bool {
    gzip_encoded(data) matches Some(stream) && gzip_decoded(stream) == Some(data)
}

/// Whether `c` is what compressing `data` gives.
pub open spec fn is_compression_of(c: Compressed, data: Seq<u8>) -> bool {
    &&& gzip_encoded(data) == Some(c.bytes@)
    &&& gzip_decoded(c.bytes@) == Some(data)
    &&& c.source_len == data.len()
    &&& c.target_len == c.bytes@.len()
}

/// Writes `data` into a `flate2::write::GzEncoder` over an empty `Vec`,
/// made by `GzEncoder::new` with `Compression::default()`, and calls
/// `finish`. The stream that comes back is the encoder's output for these
/// bytes, and an error comes back exactly where the encoder has none. On
/// which bytes that is, is left open.
#[verifier::external_body]
fn gz_encode(data: &[u8]) -> (r: Result<Vec<u8>, std::io::Error>)
    ensures
        match r {
            Ok(stream) => gzip_encoded(data@) == Some(stream@),
            Err(_) => gzip_encoded(data@) is None,
        },
{
    let mut encoder = GzEncoder::new(Vec::new(), Compression::default());
    encoder.write_all(data)?;
    encoder.finish()
}

/// Reads a `flate2::read::GzDecoder` over `stream` to its end. The bytes
/// that come back are the decoder's output for this stream, and an error
/// is reported exactly where the decoder has none.
#[verifier::external_body]
fn gz_decode(stream: &[u8]) -> (r: Result<Vec<u8>, std::io::Error>)
    ensures
        match r {
            Ok(data) => gzip_decoded(stream@) == Some(data@),
            Err(_) => gzip_decoded(stream@) is None,
        },
{
    let mut data = Vec::new();
    GzDecoder::new(stream).read_to_end(&mut data)?;
    Ok(data)
}

/// Whether two buffers hold the same bytes.
pub fn same_bytes(a: &[u8], b: &[u8]) -> (same: bool)
    ensures
        same == (a@ == b@),
{
    if a.len() != b.len() {
        return false;
    }
    let mut i: usize = 0;
    while i < a.len()
        invariant
            a@.len() == b@.len(),
            i <= a@.len(),
            a@.subrange(0, i as int) == b@.subrange(0, i as int),
        decreases a@.len() - i,
    {
        if a[i] != b[i] {
            return false;
        }
        i += 1;
    }
    assert(a@ == a@.subrange(0, i as int));
    assert(b@ == b@.subrange(0, i as int));
    true
}

/// Seals an encoded stream: given the source, the stream written for it
/// and what decoding that stream gave, returns the stream with both lengths
/// if the decoder gave the source back, and `CorruptArchive` if it failed or
/// gave anything else.
pub fn seal(data: &[u8], stream: Vec<u8>, decoded: Option<Vec<u8>>) -> (r: Result<
    Compressed,
    Failure,
>)
    ensures
        r is Ok <==> (decoded matches Some(d) && d@ == data@),
        r matches Ok(c) ==> c.bytes@ == stream@ && c.source_len == data@.len() && c.target_len
            == stream@.len(),
        r matches Err(e) ==> e == Failure::CorruptArchive,
{
    match decoded {
        Some(d) => {
            if same_bytes(d.as_slice(), data) {
                let source_len: u64 = data.len() as u64;
                let target_len: u64 = stream.len() as u64;
                Ok(Compressed { bytes: stream, source_len, target_len })
            } else {
                Err(Failure::CorruptArchive)
            }
        },
        None => Err(Failure::CorruptArchive),
    }
}

/// Compresses `data` into a gzip stream.
///
/// Succeeds exactly where the encoder writes a stream for `data` and that
/// stream decodes to `data` again. The stream is then the encoder's output
/// and is reported with both lengths. A stream that does not decode to
/// `data` is reported as `CorruptArchive`; an error of the encoder by its
/// own kind.
pub fn compress(data: &[u8]) -> (r: Result<Compressed, Failure>)
    ensures
        r is Ok <==> round_trips(data@),
        r matches Ok(c) ==> is_compression_of(c, data@),
        r matches Ok(c) ==> gzip_decoded(c.bytes@) == Some(data@),
        r matches Err(e) ==> (gzip_encoded(data@) is Some ==> e == Failure::CorruptArchive),
{
    match gz_encode(data) {
        Err(e) => Err(Failure::from_io(&e)),
        Ok(stream) => {
            let decoded = match gz_decode(stream.as_slice()) {
                Ok(d) => Some(d),
                Err(_) => None,
            };
            seal(data, stream, decoded)
        },
    }
}

/// Decodes the gzip member that `stream` begins with. Fails with
/// `CorruptArchive` exactly where the decoder reports an error.
pub fn expand(stream: &[u8]) -> (r: Result<Vec<u8>, Failure>)
    ensures
        match r {
            Ok(data) => gzip_decoded(stream@) == Some(data@),
            Err(e) => gzip_decoded(stream@) is None && e == Failure::CorruptArchive,
        },
{
    match gz_decode(stream) {
        Ok(data) => Ok(data),
        Err(_) => Err(Failure::CorruptArchive),
    }
}

} // verus!
