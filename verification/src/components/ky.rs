//! Streaming evaluation of the public-input polynomial `k(Y)`.

use crate::components::horner::horner_spec;
use crate::components::horner::Horner;
use crate::field::Scalar;
use vstd::prelude::*;

verus! {

/// A buffer that evaluates `k(Y)` at a point `y`: the values written to it
/// are the coefficients, highest degree first, and the constant term is one.
#[derive(Clone, Copy)]
pub struct Ky {
    inner: Horner,
}

impl Ky {
    /// The point of evaluation.
    pub closed spec fn point(&self) -> nat {
        self.inner.point()
    }

    /// The values written so far, in order.
    pub closed spec fn written(&self) -> Seq<nat> {
        self.inner.written()
    }

    /// An empty buffer that evaluates `k(Y)` at `y`.
    pub fn new(y: &Scalar) -> (r: Ky)
        ensures
            r.point() == y@,
            r.written() == Seq::<nat>::empty(),
    {
        Ky { inner: Horner::new(y) }
    }

    /// Writes the next coefficient.
    pub fn write(&mut self, value: &Scalar)
        ensures
            final(self).point() == old(self).point(),
            final(self).written() == old(self).written().push(value@),
    {
        let mut inner = self.inner;
        inner.write(value);
        self.inner = inner;
    }

    /// Adds the constant term one and returns `k(y)`.
    pub fn finish(self) -> (r: Scalar)
        ensures
            r@ == horner_spec(self.point(), self.written().push(1)),
    {
        let mut inner = self.inner;
        let one = Scalar::one();
        inner.write(&one);
        inner.finish()
    }
}

} // verus!
