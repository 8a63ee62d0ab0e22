//! Building blocks shared by the rounds of a fusion and by the checks that
//! mirror them.

pub mod horner;
pub mod ky;
