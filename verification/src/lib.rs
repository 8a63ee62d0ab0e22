//! A verified core for recursive proof-carrying data.
//!
//! Two proofs, each attesting to some earlier computation, are fused into
//! one proof of the same shape that attests to both and to one further
//! step. This library holds what such a fusion computes and decides, each
//! function with a contract that the verifier checks:
//!
//! - [`field`] and [`curve`]: the scalars of the circuit field and the
//!   points of the host curve. Their arithmetic is that of `pasta_curves`;
//!   every call into it sits behind a small function whose contract is
//!   stated, not proved. [`algebra`] derives the laws of the field that the
//!   proofs use.
//! - [`polynomials`]: polynomials of a fixed capacity in two layouts, their
//!   commitments, and the stages of witness construction.
//! - [`rx`] and [`s`]: the assembly of trace polynomials and the evaluation
//!   of wiring polynomials.
//! - [`fold_revdot`]: the reduction of many claims to one, with the proof
//!   that the reduction is exact.
//! - [`nested`]: what a proof holds of the nested curve, and the
//!   commitments on that curve.
//! - [`pcd`]: proofs and proof-carrying data.
//! - [`fuse`]: the rounds of a fusion and the schedule that orders them.
//! - [`circuits`]: the stages of a fusion and the checks that mirror its
//!   arithmetic.
//! - [`step`] and [`helpers`]: steps, headers and what the derive macros
//!   read.
//!
//! The arithmetizer, the registry and the transcript are not part of this
//! library. A fusion reaches them through its caller: the schedule says
//! what is to be done, the caller does it and reports back.

pub mod algebra;
pub mod circuits;
pub mod components;
pub mod curve;
pub mod error;
pub mod field;
pub mod fold_revdot;
pub mod fuse;
pub mod helpers;
pub mod nested;
pub mod pcd;
pub mod polynomials;
pub mod rx;
pub mod s;
pub mod step;
