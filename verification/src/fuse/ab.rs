//! The round that folds the claims into the polynomials `A` and `B`.
//!
//! `A` is the fold of the polynomials `a_i` with the inverse of `mu'`, `B`
//! the fold of the polynomials `b_i` with `mu' * nu'`. The value `c` that
//! the round claims is their reversed dot product.

use crate::error::Error;
use crate::field::finv;
use crate::field::fmul;
use crate::field::Scalar;
use crate::fold_revdot::all_of_rank;
use crate::fold_revdot::fold_polys_n;
use crate::fold_revdot::fold_polys_spec;
use crate::fold_revdot::views;
use crate::fuse::Application;
use crate::pcd::CommittedStructured;
use crate::polynomials::committed::Committable;
use crate::polynomials::revdot_spec;
use crate::polynomials::structured;
use rand::rngs::StdRng;
use vstd::prelude::*;

verus! {

/// What the round computes on the host curve.
pub struct Folded {
    /// The committed polynomial `A`.
    pub a: CommittedStructured,
    /// The committed polynomial `B`.
    pub b: CommittedStructured,
    /// The value `revdot(A, B)`.
    pub c: Scalar,
}

impl Application {
    /// Whether `folded` is what the round of the folded polynomials makes
    /// of the `n` polynomials on each side and the challenges `mu'` and
    /// `nu'`: the two folds, committed to, and their reversed dot product.
    pub open spec fn folded(
        &self,
        a: &Vec<structured::Polynomial>,
        b: &Vec<structured::Polynomial>,
        mu_prime: &Scalar,
        nu_prime: &Scalar,
        folded: &Folded,
    ) -> bool {
        &&& mu_prime@ != 0
        &&& folded.a.spec_poly().spec_rank() == self.spec_rank()
        &&& folded.b.spec_poly().spec_rank() == self.spec_rank()
        &&& folded.a.spec_poly()@ == fold_polys_spec(
            views(a@),
            finv(mu_prime@),
            self.spec_rank().spec_num_coeffs(),
        )
        &&& folded.b.spec_poly()@ == fold_polys_spec(
            views(b@),
            fmul(mu_prime@, nu_prime@),
            self.spec_rank().spec_num_coeffs(),
        )
        &&& folded.c@ == revdot_spec(folded.a.spec_poly()@, folded.b.spec_poly()@)
        &&& folded.a.consistent(self.spec_generators())
        &&& folded.b.consistent(self.spec_generators())
    }

    /// Folds the `n` polynomials on each side, computes the reversed dot
    /// product of the two folds, and commits to both under blinding factors
    /// drawn from `rng`. A challenge `mu'` that is zero has no inverse and
    /// is refused, before anything is committed to.
    pub fn compute_ab(
        &self,
        rng: &mut StdRng,
        a: &Vec<structured::Polynomial>,
        b: &Vec<structured::Polynomial>,
        mu_prime: &Scalar,
        nu_prime: &Scalar,
    ) -> (r: Result<Folded, Error>)
        requires
            a@.len() == self.spec_params().spec_n(),
            b@.len() == self.spec_params().spec_n(),
            all_of_rank(a@, self.spec_rank()),
            all_of_rank(b@, self.spec_rank()),
        ensures
            match r {
                Ok(folded) => self.folded(a, b, mu_prime, nu_prime, &folded),
                Err(e) => mu_prime@ == 0 && e == Error::DomainPointInvalid,
            },
    {
        let mu_prime_inv = match mu_prime.invert() {
            Some(inv) => inv,
            None => {
                return Err(Error::DomainPointInvalid);
            },
        };
        let mu_prime_nu_prime = mu_prime.mul(nu_prime);
        let a_poly = fold_polys_n(a, &mu_prime_inv, self.params(), self.rank());
        let b_poly = fold_polys_n(b, &mu_prime_nu_prime, self.params(), self.rank());
        let c = a_poly.revdot(&b_poly);
        let _ = a_poly.rank();
        let _ = b_poly.rank();
        let a = a_poly.commit(self.generators(), rng);
        let b = b_poly.commit(self.generators(), rng);
        Ok(Folded { a, b, c })
    }
}

} // verus!
