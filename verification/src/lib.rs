//! A verified deduplication engine for streams of biological sequence reads.
//!
//! Single-end records or validated read pairs are clustered by a 64-bit
//! fingerprint of a configurable sequence prefix; each cluster remembers its
//! first-seen representative and its size, and the store reports unique,
//! duplicate and total counts that are proved consistent at every step. A
//! paired-record synchronizer zips two fallible record streams in lock-step
//! and turns misalignment into typed errors. The laws the engine obeys are
//! stated and proved in `laws` over the store model of `model`.

pub mod clusters;
pub mod csv_sink;
pub mod digits;
pub mod fingerprint;
pub mod laws;
pub mod model;
pub mod paired;
pub mod records;
