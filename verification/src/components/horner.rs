//! Streaming evaluation of a polynomial by Horner's rule.

use crate::field::fadd;
use crate::field::fmul;
use crate::field::Scalar;
use vstd::prelude::*;

verus! {

/// The value at `point` of the polynomial whose coefficients are `values`,
/// highest degree first: each step multiplies what has been gathered by
/// `point` and adds the next value.
pub open spec fn horner_spec(point: nat, values: Seq<nat>) -> nat
    decreases values.len(),
{
    if values.len() == 0 {
        0
    } else {
        fadd(fmul(horner_spec(point, values.drop_last()), point), values.last())
    }
}

/// A buffer that evaluates, at a fixed point, the polynomial whose
/// coefficients are written to it, highest degree first.
#[derive(Clone, Copy)]
pub struct Horner {
    point: Scalar,
    result: Scalar,
    written: Ghost<Seq<nat>>,
}

impl Horner {
    #[verifier::type_invariant]
    spec fn well_formed(self) -> bool {
        self.result@ == horner_spec(self.point@, self.written@)
    }

    /// The point of evaluation.
    pub closed spec fn point(&self) -> nat {
        self.point@
    }

    /// The values written so far, in order.
    pub closed spec fn written(&self) -> Seq<nat> {
        self.written@
    }

    /// An empty buffer that evaluates at `point`.
    pub fn new(point: &Scalar) -> (r: Horner)
        ensures
            r.point() == point@,
            r.written() == Seq::<nat>::empty(),
    {
        Horner { point: *point, result: Scalar::zero(), written: Ghost(Seq::empty()) }
    }

    /// Writes the next coefficient.
    pub fn write(&mut self, value: &Scalar)
        ensures
            final(self).point() == old(self).point(),
            final(self).written() == old(self).written().push(value@),
    {
        proof {
            use_type_invariant(&*self);
        }
        let result = self.result.mul(&self.point).add(value);
        let ghost written = self.written@.push(value@);
        proof {
            assert(written.drop_last() =~= self.written@);
        }
        *self = Horner { point: self.point, result, written: Ghost(written) };
    }

    /// The value of the polynomial written.
    pub fn finish(self) -> (r: Scalar)
        ensures
            r@ == horner_spec(self.point(), self.written()),
    {
        proof {
            use_type_invariant(&self);
        }
        self.result
    }
}

} // verus!
