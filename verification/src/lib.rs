//! An incremental BLAKE3 digest library for a managed host runtime.
//!
//! The object-level handle lives in [`digest`], the text encodings of digest
//! bytes in [`encoding`], and the bridge to the host's pluggable digest
//! framework in [`adapter`]. [`guard`] carries the reentrancy rule for a
//! handle's mutable state, and [`primitive`] is the trusted boundary around
//! the BLAKE3 primitive itself.

pub mod adapter;
pub mod digest;
pub mod encoding;
pub mod guard;
pub mod primitive;
