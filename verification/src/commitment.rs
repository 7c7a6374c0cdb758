//! The commitment that binds a file hash to a point in time.

use vstd::prelude::*;
use vstd::string::*;
use vstd::utf8::encode_utf8;
use crate::decimal::{decimal_string, to_decimal};
use crate::host::{keccak256, keccak256_digest};

verus! {

/// The bytes that are hashed for `file_hash` at `timestamp`: the UTF-8 bytes
/// of the file hash, directly followed by those of the timestamp in decimal
/// notation. Nothing separates the two parts, and no length is written, so
/// `("ab", 12)` and `("ab1", 2)` share a preimage.
pub open spec fn commitment_preimage(file_hash: Seq<char>, timestamp: u64) -> Seq<u8> {
    encode_utf8(file_hash) + encode_utf8(decimal_string(timestamp as nat))
}

/// The commitment for `file_hash` at `timestamp`: the Keccak-256 digest of
/// the preimage.
pub open spec fn commitment_of(file_hash: Seq<char>, timestamp: u64) -> Seq<u8> {
    keccak256_digest(commitment_preimage(file_hash, timestamp))
}

/// Builds the bytes that are hashed for `file_hash` at `timestamp`.
pub fn preimage(file_hash: &str, timestamp: u64) -> (bytes: Vec<u8>)
    ensures
        bytes@ == commitment_preimage(file_hash@, timestamp),
{
    let mut bytes = file_hash.as_bytes_vec();
    let mut digits = to_decimal(timestamp).as_str().as_bytes_vec();
    bytes.append(&mut digits);
    bytes
}

/// Computes the commitment for `file_hash` at `timestamp`. The digest is the
/// host's, so a host has to be there.
pub fn commit(file_hash: &str, timestamp: u64) -> (digest: Vec<u8>)
    ensures
        digest@ == commitment_of(file_hash@, timestamp),
{
    let bytes = preimage(file_hash, timestamp);
    keccak256(bytes.as_slice())
}

} // verus!
