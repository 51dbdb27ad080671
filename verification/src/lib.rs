//! Verifiably unbiased random-number generation in an inclusive integer
//! range, split in two layers: a pure circuit that combines 64 entropy bits
//! into a value reduced onto `[min, max]`, and a coordinator that tracks
//! asynchronous computation requests keyed by a single-use offset and
//! finalizes each exactly once through a callback.

pub mod circuit;
pub mod coordinator;
