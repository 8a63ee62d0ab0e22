//! The stages whose traces a fusion commits to, and the checks that mirror
//! the arithmetic of the rounds.

pub mod compute_v;
pub mod ky;
pub mod stages;
pub mod unified;
