//! The ways in which an operation of this library fails.

use vstd::prelude::*;

verus! {

/// Why an operation could not be carried out.
#[derive(Clone, Copy, Debug, PartialEq, Eq, Structural)]
pub enum Error {
    /// A stage or trace needs more multiplication gates than the rank
    /// offers; carries the rank's bound `n`.
    MultiplicationBoundExceeded(usize),
    /// More coefficients were supplied than the domain holds; carries the
    /// domain size `4n`.
    CoefficientBoundExceeded(usize),
    /// A point at which a quotient is formed coincides with the point of
    /// evaluation, or a challenge that must be inverted is zero.
    DomainPointInvalid,
    /// A vector does not have the length that the folding parameters or the
    /// header size fix.
    LengthMismatch,
    /// An event was handed to the schedule of a fusion that it did not wait
    /// for.
    UnexpectedEvent,
    /// The traces of the checking circuits were recorded for other public
    /// inputs than those of the fusion.
    InstanceMismatch,
    /// The parts of a proof do not hold together: a header has another
    /// size or a polynomial another rank than the application fixes, a
    /// commitment does not open to its polynomial, or a claimed value is
    /// not the value it claims to be.
    InconsistentProof,
    /// The arithmetizer failed; carries the code that it gave.
    Arithmetization(u32),
}

} // verus!
