//! The two services that the ledger takes from the NEAR host it runs under:
//! the block time and the Keccak-256 hash.
//!
//! Nothing in this module is proved. Each function below hands one call to
//! `near_sdk::env`, and its contract is what the rest of the crate believes of
//! that call.
//!
//! A call reaches a host only where one is installed: on chain always, in a
//! native build once `near_sdk::env::set_blockchain_interface` was called on
//! the thread. Without a host the call panics. A host charges gas for each
//! call and stops the invocation when the gas is spent, which under the
//! mocked host of `near_sdk` is a panic as well. Whether that happens lies
//! with the host and with no argument, so no `requires` can rule it out: the
//! contracts speak of the calls that return.

use vstd::prelude::*;

verus! {

/// The Keccak-256 digest of `data`.
pub uninterp spec fn keccak256_digest(data: Seq<u8>) -> Seq<u8>;

/// `near_sdk::env::keccak256`: the host hashes the bytes it is given with
/// Keccak-256 and hands the digest back. The digest depends on those bytes
/// alone, which is all that the contract claims.
#[verifier::external_body]
pub(crate) fn keccak256(data: &[u8]) -> (digest: Vec<u8>)
    ensures
        digest@ == keccak256_digest(data@),
{
    near_sdk::env::keccak256(data)
}

/// `near_sdk::env::block_timestamp`: the time of the block that the host is
/// working on, in nanoseconds since the Unix epoch. The host alone decides
/// it, so nothing is claimed of the value.
#[verifier::external_body]
pub(crate) fn block_timestamp() -> (now: u64) {
    near_sdk::env::block_timestamp()
}

} // verus!
