//! A verified model of an on-chain price oracle.
//!
//! An oracle account publishes fixed-width price records into its own
//! persistent storage; other accounts read those records without executing a
//! transaction against the oracle, by presenting commitment evidence for the
//! oracle's committed state and invoking its read procedure by hash.
//!
//! The crate covers, with proofs:
//! - the asset-pair codec (a ticker pair packed into a 32-bit integer);
//! - the record model (a record packed into one four-element word);
//! - the oracle account's slot layout, its construction, and the atomic
//!   effect of an authenticated write;
//! - transaction-script construction as a typed instruction list with a
//!   deterministic rendering to text;
//! - the foreign-read protocol: the evidence bundle a verifier attaches, and
//!   the checks that tie a returned value to the oracle's committed state.
//!
//! Commitments are Rescue Prime Optimized digests; the hash itself is taken
//! from an outside crate behind narrow trusted wrappers.

pub mod account;
pub mod codec;
pub mod hashing;
pub mod masm;
pub mod protocol;
pub mod record;
pub mod script;
pub mod word;
pub mod write;
