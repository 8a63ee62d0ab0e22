//! Polynomials held as a flat vector of coefficients, lowest degree first.

use crate::error::Error;
use crate::field::Scalar;
use crate::polynomials::copy_dense;
use crate::polynomials::dense::Dense;
use crate::polynomials::eval_spec;
use crate::polynomials::scale_spec;
use crate::polynomials::structured;
use crate::polynomials::sum_spec;
use crate::polynomials::values;
use crate::polynomials::Rank;
use vstd::prelude::*;

verus! {

/// The sequence `c` followed by zeros up to length `len`.
pub open spec fn padded(c: Seq<nat>, len: nat) -> Seq<nat> {
    Seq::new(
        len,
        |k: int|
            if k < c.len() {
                c[k]
            } else {
                0
            },
    )
}

/// A polynomial of `4n` coefficients.
#[derive(Debug)]
pub struct Polynomial {
    inner: Dense,
}

impl Clone for Polynomial {
    fn clone(&self) -> (r: Self)
        ensures
            r@ == self@,
            r.spec_rank() == self.spec_rank(),
    {
        self.duplicate()
    }
}

impl View for Polynomial {
    type V = Seq<nat>;

    closed spec fn view(&self) -> Seq<nat> {
        self.inner@
    }
}

impl Polynomial {
    /// The rank of the polynomial.
    pub closed spec fn spec_rank(&self) -> Rank {
        self.inner.spec_rank()
    }

    /// The zero polynomial.
    pub fn new(rank: Rank) -> (r: Polynomial)
        ensures
            r.spec_rank() == rank,
            r@.len() == rank.spec_num_coeffs(),
            forall|k: int| 0 <= k < r@.len() ==> r@[k] == 0,
    {
        Polynomial { inner: Dense::new(rank) }
    }

    /// The polynomial with the given coefficients, lowest degree first, and
    /// zeros above them. More than `4n` coefficients are refused.
    pub fn from_coeffs(rank: Rank, coeffs: Vec<Scalar>) -> (r: Result<Polynomial, Error>)
        ensures
            match r {
                Ok(p) => {
                    &&& coeffs@.len() <= rank.spec_num_coeffs()
                    &&& p.spec_rank() == rank
                    &&& p@ == padded(values(coeffs@), rank.spec_num_coeffs())
                },
                Err(e) => {
                    &&& coeffs@.len() > rank.spec_num_coeffs()
                    &&& e == Error::CoefficientBoundExceeded(rank.spec_num_coeffs() as usize)
                },
            },
    {
        let size = rank.num_coeffs();
        if coeffs.len() > size {
            return Err(Error::CoefficientBoundExceeded(size));
        }
        let mut full = coeffs;
        let ghost given = values(full@);
        while full.len() < size
            invariant
                given.len() <= full@.len() <= size,
                forall|k: int| 0 <= k < given.len() ==> full@[k]@ == given[k],
                forall|k: int| given.len() <= k < full@.len() ==> full@[k]@ == 0,
            decreases size - full@.len(),
        {
            full.push(Scalar::zero());
        }
        assert(values(full@) =~= padded(given, size as nat));
        Ok(Polynomial { inner: Dense::from_vec(rank, full) })
    }

    /// The polynomial with the given `4n` coefficients, lowest degree first.
    pub(crate) fn from_dense(rank: Rank, coeffs: Vec<Scalar>) -> (r: Polynomial)
        requires
            coeffs@.len() == rank.spec_num_coeffs(),
        ensures
            r.spec_rank() == rank,
            r@ == values(coeffs@),
    {
        Polynomial { inner: Dense::from_vec(rank, coeffs) }
    }

    /// The rank of the polynomial.
    #[verifier::when_used_as_spec(spec_rank)]
    pub fn rank(&self) -> (r: Rank)
        ensures
            r == self.spec_rank(),
            self@.len() == r.spec_num_coeffs(),
    {
        self.inner.rank()
    }

    /// A copy of the polynomial.
    pub fn duplicate(&self) -> (r: Polynomial)
        ensures
            r@ == self@,
            r.spec_rank() == self.spec_rank(),
    {
        Polynomial { inner: self.inner.duplicate() }
    }

    /// The coefficients, lowest degree first.
    pub fn coefficients(&self) -> (r: Vec<Scalar>)
        ensures
            values(r@) == self@,
    {
        copy_dense(self.inner.as_vec())
    }

    /// The coefficient of `X^k`.
    pub fn get(&self, k: usize) -> (r: Scalar)
        requires
            k < self.spec_rank().spec_num_coeffs(),
        ensures
            r@ == self@[k as int],
    {
        self.inner.get(k)
    }

    /// Sets the coefficient of `X^k` to `value`.
    pub fn set(&mut self, k: usize, value: Scalar)
        requires
            k < old(self).spec_rank().spec_num_coeffs(),
        ensures
            final(self).spec_rank() == old(self).spec_rank(),
            final(self)@ == old(self)@.update(k as int, value@),
    {
        self.inner.set(k, value);
    }

    /// The value of the polynomial at `x`.
    pub fn eval(&self, x: &Scalar) -> (r: Scalar)
        ensures
            r@ == eval_spec(self@, x@),
    {
        self.inner.eval(x)
    }

    /// Multiplies every coefficient by `factor`.
    pub fn scale(&mut self, factor: &Scalar)
        ensures
            final(self).spec_rank() == old(self).spec_rank(),
            final(self)@ == scale_spec(old(self)@, factor@),
    {
        self.inner.scale(factor);
    }

    /// Adds `other`, a polynomial of the same rank.
    pub fn add_assign(&mut self, other: &Polynomial)
        requires
            old(self).spec_rank() == other.spec_rank(),
        ensures
            final(self).spec_rank() == old(self).spec_rank(),
            final(self)@ == sum_spec(old(self)@, other@),
    {
        self.inner.add_assign(&other.inner);
    }

    /// Adds `other`, a structured polynomial of the same rank, coefficient
    /// by coefficient.
    pub fn add_structured(&mut self, other: &structured::Polynomial)
        requires
            old(self).spec_rank() == other.spec_rank(),
        ensures
            final(self).spec_rank() == old(self).spec_rank(),
            final(self)@ == sum_spec(old(self)@, other@),
    {
        self.inner.add_assign(other.inner());
    }

    /// The coefficients as they are stored.
    pub(crate) fn dense(&self) -> (r: &Vec<Scalar>)
        ensures
            values(r@) == self@,
            r@.len() == self.spec_rank().spec_num_coeffs(),
    {
        self.inner.as_vec()
    }
}

} // verus!
