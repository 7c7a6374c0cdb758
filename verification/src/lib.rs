//! A trusted-timestamping ledger: it binds the content hash of a file to the
//! logical time at which the hash was presented, and hands that binding back
//! on request.
//!
//! The ledger runs under a NEAR host, which supplies the time and the
//! Keccak-256 hash; see [`host`]. Each stamp hands back a line for the caller
//! to put into the host's log; see [`audit`]. What a stamp records is defined
//! in [`commitment`] and [`record`], the ledger itself in [`ledger`], and what
//! holds of it whatever is stamped in [`laws`].

pub mod audit;
pub mod commitment;
pub mod decimal;
pub mod host;
pub mod laws;
pub mod ledger;
pub mod record;

pub use ledger::ProofOfTimestamp;
pub use record::TimestampedFile;
