//! Evaluation of the wiring polynomial by running a circuit on monomials.
//!
//! When a circuit is run to evaluate its wiring polynomial at a point,
//! a wire is not an index but the value of the monomial that belongs to it,
//! and a linear combination of wires is a field element that is summed up
//! on the spot.

use crate::field::fadd;
use crate::field::fmul;
use crate::field::fneg;
use crate::field::Scalar;
use vstd::prelude::*;

verus! {

/// A coefficient of a linear combination; the small ones are told apart so
/// that no multiplication is spent on them.
#[derive(Clone, Copy, Debug)]
pub enum Coeff {
    /// Zero.
    Zero,
    /// One.
    One,
    /// Two.
    Two,
    /// Minus one.
    NegativeOne,
    /// The given element.
    Arbitrary(Scalar),
    /// The given element, negated.
    NegativeArbitrary(Scalar),
}

impl Coeff {
    /// The element of the field that the coefficient stands for.
    pub open spec fn spec_value(&self) -> nat {
        match self {
            Coeff::Zero => 0,
            Coeff::One => 1,
            Coeff::Two => 2,
            Coeff::NegativeOne => fneg(1),
            Coeff::Arbitrary(v) => v@,
            Coeff::NegativeArbitrary(v) => fneg(v@),
        }
    }

    /// The element of the field that the coefficient stands for.
    pub fn value(&self) -> (r: Scalar)
        ensures
            r@ == self.spec_value(),
    {
        match self {
            Coeff::Zero => Scalar::zero(),
            Coeff::One => Scalar::one(),
            Coeff::Two => Scalar::from_u64(2),
            Coeff::NegativeOne => Scalar::one().neg(),
            Coeff::Arbitrary(v) => *v,
            Coeff::NegativeArbitrary(v) => v.neg(),
        }
    }

    /// The product of two coefficients.
    pub fn mul(&self, other: &Coeff) -> (r: Coeff)
        ensures
            r.spec_value() == fmul(self.spec_value(), other.spec_value()),
    {
        Coeff::Arbitrary(self.value().mul(&other.value()))
    }
}

/// The value of the monomial of a wire.
#[derive(Clone, Copy, Debug)]
pub enum WireEval {
    /// The value of the monomial, or of a linear combination of monomials.
    Value(Scalar),
    /// The wire that is constantly one; its monomial depends on the point
    /// of evaluation and is looked up when the wire is used.
    One,
}

/// The value of a monomial of the wiring polynomial; another name for
/// [`WireEval`].
pub type Monomial = WireEval;

/// A linear combination of monomials, summed up as it is built; another
/// name for [`WireEvalSum`].
pub type MonomialSum = WireEvalSum;

/// A linear combination of wires, summed up as it is built.
#[derive(Clone, Copy, Debug)]
pub struct WireEvalSum {
    value: Scalar,
    one: Scalar,
    gain: Coeff,
}

impl WireEvalSum {
    /// What has been summed up so far.
    pub closed spec fn spec_value(&self) -> nat {
        self.value@
    }

    /// What has been summed up so far.
    pub fn value(&self) -> (r: Scalar)
        ensures
            r@ == self.spec_value(),
    {
        self.value
    }

    /// The value of the monomial of the wire that is constantly one.
    pub closed spec fn one(&self) -> nat {
        self.one@
    }

    /// The factor by which every term that is added from now on is
    /// multiplied.
    pub closed spec fn gain(&self) -> nat {
        self.gain.spec_value()
    }

    /// The value of the monomial of a wire.
    pub open spec fn resolve(&self, wire_eval: &WireEval) -> nat {
        match wire_eval {
            WireEval::Value(v) => v@,
            WireEval::One => self.one(),
        }
    }

    /// The empty sum; `one` is the value of the monomial of the wire that
    /// is constantly one.
    pub fn new(one: Scalar) -> (r: WireEvalSum)
        ensures
            r.spec_value() == 0,
            r.one() == one@,
            r.gain() == 1,
    {
        WireEvalSum { value: Scalar::zero(), one, gain: Coeff::One }
    }

    /// Adds the wire times `coeff` times the gain.
    pub fn add_term(self, wire_eval: &WireEval, coeff: Coeff) -> (r: WireEvalSum)
        ensures
            r.one() == self.one(),
            r.gain() == self.gain(),
            r.spec_value() == fadd(
                self.spec_value(),
                fmul(self.resolve(wire_eval), fmul(coeff.spec_value(), self.gain())),
            ),
    {
        let wire = match wire_eval {
            WireEval::Value(v) => *v,
            WireEval::One => self.one,
        };
        let term = wire.mul(&coeff.mul(&self.gain).value());
        WireEvalSum { value: self.value.add(&term), one: self.one, gain: self.gain }
    }

    /// Multiplies the gain by `coeff`.
    pub fn scale_gain(self, coeff: Coeff) -> (r: WireEvalSum)
        ensures
            r.one() == self.one(),
            r.spec_value() == self.spec_value(),
            r.gain() == fmul(self.gain(), coeff.spec_value()),
    {
        WireEvalSum { value: self.value, one: self.one, gain: self.gain.mul(&coeff) }
    }
}

} // verus!
