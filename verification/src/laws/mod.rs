//! Laws of the crate: statements about every message, every allow-list and
//! every batch, proved from the definitions that the contracts use.

pub mod batch;
pub mod filter;
pub mod flatten;
pub mod round_trip;
