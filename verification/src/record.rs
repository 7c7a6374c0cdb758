//! The record that the ledger keeps for a stamped file.

use vstd::prelude::*;
use vstd::std_specs::cmp::PartialEqSpecImpl;
use crate::commitment::{commit, commitment_of};

verus! {

/// What a record says: a point in time and the commitment made at it.
#[verifier::ext_equal]
pub struct Stamp {
    pub timestamp: u64,
    pub commitment: Seq<u8>,
}

impl Stamp {
    /// What is answered for a file hash that was never stamped: time zero and
    /// an empty commitment.
    pub open spec fn absent() -> Stamp {
        Stamp { timestamp: 0, commitment: Seq::empty() }
    }

    /// What stamping `file_hash` at `timestamp` records.
    pub open spec fn binding(file_hash: Seq<char>, timestamp: u64) -> Stamp {
        Stamp { timestamp, commitment: commitment_of(file_hash, timestamp) }
    }
}

/// A timestamp together with the commitment that binds a file hash to it.
#[derive(Debug)]
pub struct TimestampedFile {
    timestamp: u64,
    commitment: Vec<u8>,
}

impl View for TimestampedFile {
    type V = Stamp;

    closed spec fn view(&self) -> Stamp {
        Stamp { timestamp: self.timestamp, commitment: self.commitment@ }
    }
}

impl TimestampedFile {
    /// A record that holds `timestamp` and `commitment` as they are given.
    pub fn new(timestamp: u64, commitment: Vec<u8>) -> (record: Self)
        ensures
            record@ == (Stamp { timestamp, commitment: commitment@ }),
    {
        TimestampedFile { timestamp, commitment }
    }

    /// The record that binds `file_hash` to `timestamp`. The commitment is
    /// computed with the host's hash, so a host has to be there.
    pub fn stamped(file_hash: &str, timestamp: u64) -> (record: Self)
        ensures
            record@ == Stamp::binding(file_hash@, timestamp),
    {
        TimestampedFile { timestamp, commitment: commit(file_hash, timestamp) }
    }

    /// The time that the record holds.
    pub fn timestamp(&self) -> (timestamp: u64)
        ensures
            timestamp == self@.timestamp,
    {
        self.timestamp
    }

    /// The commitment that the record holds.
    pub fn commitment(&self) -> (commitment: &[u8])
        ensures
            commitment@ == self@.commitment,
    {
        self.commitment.as_slice()
    }
}

impl Default for TimestampedFile {
    /// The record that stands for "never stamped".
    fn default() -> (record: Self)
        ensures
            record@ == Stamp::absent(),
    {
        TimestampedFile { timestamp: 0, commitment: Vec::new() }
    }
}

impl Clone for TimestampedFile {
    fn clone(&self) -> (copy: Self)
        ensures
            copy@ == self@,
    {
        let commitment = self.commitment.clone();
        TimestampedFile { timestamp: self.timestamp, commitment }
    }
}

impl PartialEq for TimestampedFile {
    fn eq(&self, other: &Self) -> (equal: bool) {
        let same_time = self.timestamp == other.timestamp;
        let same_commitment = self.commitment == other.commitment;
        assert(same_commitment <==> self.commitment@ =~= other.commitment@);
        same_time && same_commitment
    }
}

impl PartialEqSpecImpl for TimestampedFile {
    open spec fn obeys_eq_spec() -> bool {
        true
    }

    open spec fn eq_spec(&self, other: &Self) -> bool {
        self@ == other@
    }
}

} // verus!
