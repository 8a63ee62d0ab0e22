//! The stages of the witness of a fusion on the host curve.

pub mod error_m;
pub mod error_n;
pub mod eval;
pub mod query;
