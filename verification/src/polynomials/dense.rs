//! The coefficients that both layouts of a polynomial hold: exactly `4n` of
//! them, lowest degree first.

use crate::field::fadd;
use crate::field::fmul;
use crate::field::fpow;
use crate::field::Scalar;
use crate::polynomials::copy_dense;
use crate::polynomials::dilate_spec;
use crate::polynomials::eval_dense;
use crate::polynomials::eval_spec;
use crate::polynomials::revdot_spec;
use crate::polynomials::revdot_upto;
use crate::polynomials::scale_spec;
use crate::polynomials::sum_spec;
use crate::polynomials::values;
use crate::polynomials::zeros;
use crate::polynomials::Rank;
use vstd::prelude::*;

verus! {

/// The `4n` coefficients of a polynomial of a rank.
#[derive(Debug)]
pub(crate) struct Dense {
    rank: Rank,
    coeffs: Vec<Scalar>,
}

impl View for Dense {
    type V = Seq<nat>;

    closed spec fn view(&self) -> Seq<nat> {
        values(self.coeffs@)
    }
}

impl Dense {
    #[verifier::type_invariant]
    spec fn well_formed(self) -> bool {
        self.coeffs@.len() == self.rank.spec_num_coeffs()
    }

    /// The rank.
    pub(crate) closed spec fn spec_rank(&self) -> Rank {
        self.rank
    }

    /// The zero polynomial.
    pub(crate) fn new(rank: Rank) -> (r: Dense)
        ensures
            r.spec_rank() == rank,
            r@.len() == rank.spec_num_coeffs(),
            forall|k: int| 0 <= k < r@.len() ==> r@[k] == 0,
    {
        let coeffs = zeros(rank.num_coeffs());
        Dense { rank, coeffs }
    }

    /// The polynomial with the given `4n` coefficients.
    pub(crate) fn from_vec(rank: Rank, coeffs: Vec<Scalar>) -> (r: Dense)
        requires
            coeffs@.len() == rank.spec_num_coeffs(),
        ensures
            r.spec_rank() == rank,
            r@ == values(coeffs@),
    {
        Dense { rank, coeffs }
    }

    /// The rank, which fixes the number of coefficients.
    pub(crate) fn rank(&self) -> (r: Rank)
        ensures
            r == self.spec_rank(),
            self@.len() == r.spec_num_coeffs(),
    {
        proof {
            use_type_invariant(self);
        }
        self.rank
    }

    /// The coefficients as they are stored.
    pub(crate) fn as_vec(&self) -> (r: &Vec<Scalar>)
        ensures
            values(r@) == self@,
            r@.len() == self.spec_rank().spec_num_coeffs(),
    {
        proof {
            use_type_invariant(self);
        }
        &self.coeffs
    }

    /// A copy.
    pub(crate) fn duplicate(&self) -> (r: Dense)
        ensures
            r@ == self@,
            r.spec_rank() == self.spec_rank(),
    {
        proof {
            use_type_invariant(self);
        }
        Dense { rank: self.rank, coeffs: copy_dense(&self.coeffs) }
    }

    /// The coefficient of `X^k`.
    pub(crate) fn get(&self, k: usize) -> (r: Scalar)
        requires
            k < self.spec_rank().spec_num_coeffs(),
        ensures
            r@ == self@[k as int],
    {
        proof {
            use_type_invariant(self);
        }
        self.coeffs[k]
    }

    /// Sets the coefficient of `X^k`.
    pub(crate) fn set(&mut self, k: usize, value: Scalar)
        requires
            k < old(self).spec_rank().spec_num_coeffs(),
        ensures
            final(self).spec_rank() == old(self).spec_rank(),
            final(self)@ == old(self)@.update(k as int, value@),
    {
        proof {
            use_type_invariant(&*self);
        }
        self.coeffs[k] = value;
        assert(values(self.coeffs@) =~= values(old(self).coeffs@).update(k as int, value@));
    }

    /// The value at `x`.
    pub(crate) fn eval(&self, x: &Scalar) -> (r: Scalar)
        ensures
            r@ == eval_spec(self@, x@),
    {
        eval_dense(&self.coeffs, x)
    }

    /// Multiplies every coefficient by `factor`.
    pub(crate) fn scale(&mut self, factor: &Scalar)
        ensures
            final(self).spec_rank() == old(self).spec_rank(),
            final(self)@ == scale_spec(old(self)@, factor@),
    {
        proof {
            use_type_invariant(&*self);
        }
        let ghost before = self@;
        let len = self.coeffs.len();
        let mut i: usize = 0;
        while i < len
            invariant
                i <= len,
                self.coeffs@.len() == len,
                len == self.rank.spec_num_coeffs(),
                self.rank == old(self).rank,
                before.len() == len,
                forall|k: int| 0 <= k < i ==> self.coeffs@[k]@ == fmul(before[k], factor@),
                forall|k: int| i <= k < len ==> self.coeffs@[k]@ == before[k],
            decreases len - i,
        {
            let v = self.coeffs[i].mul(factor);
            self.coeffs[i] = v;
            i += 1;
        }
        assert(self@ =~= scale_spec(before, factor@));
    }

    /// Adds the coefficients of `other`, of the same rank.
    pub(crate) fn add_assign(&mut self, other: &Dense)
        requires
            old(self).spec_rank() == other.spec_rank(),
        ensures
            final(self).spec_rank() == old(self).spec_rank(),
            final(self)@ == sum_spec(old(self)@, other@),
    {
        proof {
            use_type_invariant(&*self);
            use_type_invariant(other);
        }
        let ghost before = self@;
        let len = self.coeffs.len();
        let mut i: usize = 0;
        while i < len
            invariant
                i <= len,
                self.coeffs@.len() == len,
                other.coeffs@.len() == len,
                len == self.rank.spec_num_coeffs(),
                self.rank == old(self).rank,
                before.len() == len,
                forall|k: int| 0 <= k < i ==> self.coeffs@[k]@ == fadd(before[k], other@[k]),
                forall|k: int| i <= k < len ==> self.coeffs@[k]@ == before[k],
            decreases len - i,
        {
            let v = self.coeffs[i].add(&other.coeffs[i]);
            self.coeffs[i] = v;
            i += 1;
        }
        assert(self@ =~= sum_spec(before, other@));
    }

    /// Multiplies coefficient `k` by `z^k`, for every `k`.
    pub(crate) fn dilate(&mut self, z: &Scalar)
        ensures
            final(self).spec_rank() == old(self).spec_rank(),
            final(self)@ == dilate_spec(old(self)@, z@),
    {
        proof {
            use_type_invariant(&*self);
        }
        let ghost before = self@;
        let len = self.coeffs.len();
        let mut power = Scalar::one();
        let mut i: usize = 0;
        while i < len
            invariant
                i <= len,
                self.coeffs@.len() == len,
                len == self.rank.spec_num_coeffs(),
                self.rank == old(self).rank,
                before.len() == len,
                power@ == fpow(z@, i as nat),
                forall|k: int|
                    0 <= k < i ==> self.coeffs@[k]@ == fmul(before[k], fpow(z@, k as nat)),
                forall|k: int| i <= k < len ==> self.coeffs@[k]@ == before[k],
            decreases len - i,
        {
            let v = self.coeffs[i].mul(&power);
            self.coeffs[i] = v;
            power = z.mul(&power);
            i += 1;
        }
        assert(self@ =~= dilate_spec(before, z@));
    }

    /// The reversed dot product with `other`, of the same rank.
    pub(crate) fn revdot(&self, other: &Dense) -> (r: Scalar)
        requires
            self.spec_rank() == other.spec_rank(),
        ensures
            r@ == revdot_spec(self@, other@),
    {
        proof {
            use_type_invariant(self);
            use_type_invariant(other);
        }
        let len = self.coeffs.len();
        let mut acc = Scalar::zero();
        let mut i: usize = 0;
        while i < len
            invariant
                i <= len,
                self.coeffs@.len() == len,
                other.coeffs@.len() == len,
                acc@ == revdot_upto(self@, other@, i as nat),
            decreases len - i,
        {
            acc = acc.add(&self.coeffs[i].mul(&other.coeffs[len - 1 - i]));
            i += 1;
        }
        acc
    }
}

} // verus!
