use vstd::prelude::*;

use crate::error::CoreError;

verus! {

/// The zstd compression level of catalog snapshots (the highest).
pub const COMPRESSION_LEVEL: i32 = 22;

/// What zstd's `encode_all` gives for the bytes at a level: one zstd frame,
/// or nothing where it fails.
pub uninterp spec fn zstd_encoded(data: Seq<u8>, level: i32) -> Option<Seq<u8>>;

/// What zstd's `decode_all` gives for the bytes: the decompressed content of
/// the frames, or nothing where they are not valid zstd data.
pub uninterp spec fn zstd_decoded(data: Seq<u8>) -> Option<Seq<u8>>;

/// Relies on zstd::encode_all: compresses a whole in-memory buffer at the
/// given level; the result depends on the bytes and the level alone.
#[verifier::external_body]
fn zstd_encode_all(data: &[u8], level: i32) -> (r: Option<Vec<u8>>)
    ensures
        match r {
            Some(v) => zstd_encoded(data@, level) == Some(v@),
            None => zstd_encoded(data@, level) is None,
        },
{
    zstd::encode_all(data, level).ok()
}

/// Relies on zstd::decode_all: decompresses a whole in-memory buffer; the
/// result depends on the bytes alone.
#[verifier::external_body]
fn zstd_decode_all(data: &[u8]) -> (r: Option<Vec<u8>>)
    ensures
        match r {
            Some(v) => zstd_decoded(data@) == Some(v@),
            None => zstd_decoded(data@) is None,
        },
{
    zstd::decode_all(data).ok()
}

/// Compresses the serialized form of a catalog into a snapshot.
pub fn compress(raw: &[u8]) -> (r: Result<Vec<u8>, CoreError>)
    ensures
        match r {
            Ok(v) => zstd_encoded(raw@, COMPRESSION_LEVEL) == Some(v@),
            Err(e) => zstd_encoded(raw@, COMPRESSION_LEVEL) is None && e == CoreError::IoError,
        },
{
    match zstd_encode_all(raw, COMPRESSION_LEVEL) {
        Some(v) => Ok(v),
        None => Err(CoreError::IoError),
    }
}

/// Recovers the serialized form of a catalog from a snapshot.
pub fn decompress(snapshot: &[u8]) -> (r: Result<Vec<u8>, CoreError>)
    ensures
        match r {
            Ok(v) => zstd_decoded(snapshot@) == Some(v@),
            Err(e) => zstd_decoded(snapshot@) is None && e == CoreError::IoError,
        },
{
    match zstd_decode_all(snapshot) {
        Some(v) => Ok(v),
        None => Err(CoreError::IoError),
    }
}

} // verus!
