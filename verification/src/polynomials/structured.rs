//! Polynomials whose coefficients are addressed as the wires of
//! multiplication gates.
//!
//! With `n` gates the polynomial has `4n` coefficients. Gate `i` owns four of
//! them, one in each lane:
//!
//! | wire | power of `X`   |
//! |------|----------------|
//! | `C`  | `i`            |
//! | `B`  | `2n - 1 - i`   |
//! | `A`  | `2n + i`       |
//! | `D`  | `4n - 1 - i`   |
//!
//! so that the reversed dot product of two such polynomials pairs the `A`
//! lane of one with the `B` lane of the other, and the `C` lane with the `D`
//! lane.

use crate::field::Scalar;
use crate::polynomials::copy_dense;
use crate::polynomials::dense::Dense;
use crate::polynomials::dilate_spec;
use crate::polynomials::eval_spec;
use crate::polynomials::revdot_spec;
use crate::polynomials::scale_spec;
use crate::polynomials::sum_spec;
use crate::polynomials::values;
use crate::polynomials::Rank;
use vstd::prelude::*;

verus! {

/// One of the four wires of a multiplication gate.
#[derive(Clone, Copy, Debug, PartialEq, Eq, Structural)]
pub enum Wire {
    /// The left multiplicand.
    A,
    /// The right multiplicand.
    B,
    /// The product.
    C,
    /// The reserved lane, zero in every trace.
    D,
}

/// The index of the coefficient that holds `wire` of gate `gate`, with `n`
/// gates in all.
pub open spec fn position(n: nat, wire: Wire, gate: nat) -> int {
    match wire {
        Wire::A => (2 * n + gate) as int,
        Wire::B => 2 * n - 1 - gate,
        Wire::C => gate as int,
        Wire::D => 4 * n - 1 - gate,
    }
}

/// A polynomial of `4n` coefficients, addressed by gate and wire.
#[derive(Debug)]
pub struct Polynomial {
    inner: Dense,
}

impl Clone for Polynomial {
    fn clone(&self) -> (r: Self)
        ensures
            r@ == self@,
            r.spec_rank() == self.spec_rank(),
    {
        self.duplicate()
    }
}

impl View for Polynomial {
    type V = Seq<nat>;

    closed spec fn view(&self) -> Seq<nat> {
        self.inner@
    }
}

impl Polynomial {
    /// The rank of the polynomial.
    pub closed spec fn spec_rank(&self) -> Rank {
        self.inner.spec_rank()
    }

    /// The value of `wire` of gate `gate`.
    pub open spec fn wire(&self, wire: Wire, gate: nat) -> nat {
        self@[position(self.spec_rank().spec_n(), wire, gate)]
    }

    /// The zero polynomial.
    pub fn new(rank: Rank) -> (r: Polynomial)
        ensures
            r.spec_rank() == rank,
            r@.len() == rank.spec_num_coeffs(),
            forall|k: int| 0 <= k < r@.len() ==> r@[k] == 0,
    {
        Polynomial { inner: Dense::new(rank) }
    }

    /// The polynomial with the given `4n` coefficients, lowest degree first.
    pub(crate) fn from_dense(rank: Rank, coeffs: Vec<Scalar>) -> (r: Polynomial)
        requires
            coeffs@.len() == rank.spec_num_coeffs(),
        ensures
            r.spec_rank() == rank,
            r@ == values(coeffs@),
    {
        Polynomial { inner: Dense::from_vec(rank, coeffs) }
    }

    /// The rank of the polynomial.
    #[verifier::when_used_as_spec(spec_rank)]
    pub fn rank(&self) -> (r: Rank)
        ensures
            r == self.spec_rank(),
            self@.len() == r.spec_num_coeffs(),
    {
        self.inner.rank()
    }

    /// A copy of the polynomial.
    pub fn duplicate(&self) -> (r: Polynomial)
        ensures
            r@ == self@,
            r.spec_rank() == self.spec_rank(),
    {
        Polynomial { inner: self.inner.duplicate() }
    }

    /// The coefficients, lowest degree first.
    pub fn coefficients(&self) -> (r: Vec<Scalar>)
        ensures
            values(r@) == self@,
    {
        copy_dense(self.inner.as_vec())
    }

    /// The index of the coefficient that holds `wire` of gate `gate`.
    fn index_of(&self, wire: Wire, gate: usize) -> (r: usize)
        requires
            gate < self.spec_rank().spec_n(),
        ensures
            r == position(self.spec_rank().spec_n(), wire, gate as nat),
            r < self.spec_rank().spec_num_coeffs(),
    {
        let n = self.inner.rank().n();
        match wire {
            Wire::A => 2 * n + gate,
            Wire::B => 2 * n - 1 - gate,
            Wire::C => gate,
            Wire::D => 4 * n - 1 - gate,
        }
    }

    /// The value of `wire` of gate `gate`.
    pub fn get(&self, wire: Wire, gate: usize) -> (r: Scalar)
        requires
            gate < self.spec_rank().spec_n(),
        ensures
            r@ == self.wire(wire, gate as nat),
    {
        let i = self.index_of(wire, gate);
        self.inner.get(i)
    }

    /// Sets `wire` of gate `gate` to `value`.
    pub fn set(&mut self, wire: Wire, gate: usize, value: Scalar)
        requires
            gate < old(self).spec_rank().spec_n(),
        ensures
            final(self).spec_rank() == old(self).spec_rank(),
            final(self)@ == old(self)@.update(
                position(old(self).spec_rank().spec_n(), wire, gate as nat),
                value@,
            ),
    {
        let i = self.index_of(wire, gate);
        self.inner.set(i, value);
    }

    /// The value of the polynomial at `x`.
    pub fn eval(&self, x: &Scalar) -> (r: Scalar)
        ensures
            r@ == eval_spec(self@, x@),
    {
        self.inner.eval(x)
    }

    /// Multiplies every coefficient by `factor`.
    pub fn scale(&mut self, factor: &Scalar)
        ensures
            final(self).spec_rank() == old(self).spec_rank(),
            final(self)@ == scale_spec(old(self)@, factor@),
    {
        self.inner.scale(factor);
    }

    /// Adds `other`, a polynomial of the same rank.
    pub fn add_assign(&mut self, other: &Polynomial)
        requires
            old(self).spec_rank() == other.spec_rank(),
        ensures
            final(self).spec_rank() == old(self).spec_rank(),
            final(self)@ == sum_spec(old(self)@, other@),
    {
        self.inner.add_assign(&other.inner);
    }

    /// Replaces the polynomial `r(X)` by `r(zX)`.
    pub fn dilate(&mut self, z: &Scalar)
        ensures
            final(self).spec_rank() == old(self).spec_rank(),
            final(self)@ == dilate_spec(old(self)@, z@),
    {
        self.inner.dilate(z);
    }

    /// The reversed dot product with `other`, a polynomial of the same rank:
    /// the sum over all `k` of `self[k] * other[4n - 1 - k]`.
    pub fn revdot(&self, other: &Polynomial) -> (r: Scalar)
        requires
            self.spec_rank() == other.spec_rank(),
        ensures
            r@ == revdot_spec(self@, other@),
    {
        self.inner.revdot(&other.inner)
    }

    /// The coefficients as they are stored.
    pub(crate) fn dense(&self) -> (r: &Vec<Scalar>)
        ensures
            values(r@) == self@,
            r@.len() == self.spec_rank().spec_num_coeffs(),
    {
        self.inner.as_vec()
    }

    /// The coefficients and the rank together.
    pub(crate) fn inner(&self) -> (r: &Dense)
        ensures
            r@ == self@,
            r.spec_rank() == self.spec_rank(),
    {
        &self.inner
    }
}

} // verus!
