//! The two rounds that hold the error terms of the folding reduction.

use crate::circuits::stages::error_n;
use crate::error::Error;
use crate::field::finv;
use crate::field::fmul;
use crate::field::Scalar;
use crate::fold_revdot::all_of_rank;
use crate::fold_revdot::claim_matrix;
use crate::fold_revdot::collapse_spec;
use crate::fold_revdot::compute_c;
use crate::fold_revdot::compute_errors_m;
use crate::fold_revdot::compute_errors_n;
use crate::fold_revdot::error_index;
use crate::fold_revdot::error_terms_len;
use crate::fold_revdot::fold_polys_m;
use crate::fold_revdot::folded_groups;
use crate::fold_revdot::views;
use crate::fuse::Application;
use crate::pcd::CommittedStructured;
use crate::polynomials::committed::Committable;
use crate::polynomials::revdot_spec;
use crate::polynomials::structured;
use crate::polynomials::values;
use rand::rngs::StdRng;
use vstd::prelude::*;

verus! {

/// What the round of the first layer computes on the host curve.
pub struct FirstLayer {
    /// The committed registry polynomial at `w` and `y`.
    pub registry_wy: CommittedStructured,
    /// The error terms, group by group.
    pub error_terms: Vec<Vec<Scalar>>,
}

/// What the round of the second layer computes on the host curve.
pub struct SecondLayer {
    /// The error terms of the second layer, the values that the groups
    /// collapsed to, and the copied state of the transcript.
    pub witness: error_n::Witness,
    /// The folded polynomials `a` of the groups.
    pub a: Vec<structured::Polynomial>,
    /// The folded polynomials `b` of the groups.
    pub b: Vec<structured::Polynomial>,
}

impl Application {
    /// Whether `layer` is what the round of the first layer makes of the
    /// registry polynomial and the claims: the committed registry
    /// polynomial, and for each of the `n` groups of `m` claims the error
    /// terms `revdot(a_i, b_j)` for every pair `i != j` of the group.
    pub open spec fn first_layer(
        &self,
        registry_wy: &structured::Polynomial,
        a: &Vec<structured::Polynomial>,
        b: &Vec<structured::Polynomial>,
        layer: &FirstLayer,
    ) -> bool {
        &&& layer.registry_wy.spec_poly()@ == registry_wy@
        &&& layer.registry_wy.spec_poly().spec_rank() == self.spec_rank()
        &&& layer.registry_wy.consistent(self.spec_generators())
        &&& layer.error_terms@.len() == self.spec_params().spec_n()
        &&& forall|g: int|
            0 <= g < self.spec_params().spec_n() ==> (#[trigger] layer.error_terms@[g])@.len()
                == error_terms_len(self.spec_params().spec_m())
        &&& forall|g: nat, i: nat, j: nat|
            g < self.spec_params().spec_n() && i < self.spec_params().spec_m() && j
                < self.spec_params().spec_m() && i != j ==> (
            #[trigger] layer.error_terms@[g as int]@[error_index(
                self.spec_params().spec_m(),
                i,
                j,
            )])@ == revdot_spec(
                a@[(g * self.spec_params().spec_m() + i) as int]@,
                b@[(g * self.spec_params().spec_m() + j) as int]@,
            )
    }

    /// The round of the first layer: commits to the registry polynomial at
    /// `w` and `y` under a blinding factor drawn from `rng`, and computes,
    /// for each of the `n` groups of `m` claims, the error terms
    /// `revdot(a_i, b_j)` for every pair `i != j` of the group.
    pub fn compute_errors_m(
        &self,
        rng: &mut StdRng,
        registry_wy: &structured::Polynomial,
        a: &Vec<structured::Polynomial>,
        b: &Vec<structured::Polynomial>,
    ) -> (r: FirstLayer)
        requires
            registry_wy.spec_rank() == self.spec_rank(),
            a@.len() == self.spec_params().spec_n() * self.spec_params().spec_m(),
            b@.len() == self.spec_params().spec_n() * self.spec_params().spec_m(),
            all_of_rank(a@, self.spec_rank()),
            all_of_rank(b@, self.spec_rank()),
        ensures
            self.first_layer(registry_wy, a, b, &r),
    {
        let _ = registry_wy.rank();
        let committed = registry_wy.commit(self.generators(), rng);
        let error_terms = compute_errors_m(a, b, self.params(), self.rank());
        FirstLayer { registry_wy: committed, error_terms }
    }

    /// Whether `layer` is what the round of the second layer makes of the
    /// claims, the error terms and claimed values of the first layer, the
    /// challenges `mu` and `nu` and the copied state of the transcript.
    pub open spec fn second_layer(
        &self,
        a: &Vec<structured::Polynomial>,
        b: &Vec<structured::Polynomial>,
        error_terms: &Vec<Vec<Scalar>>,
        ky_values: &Vec<Vec<Scalar>>,
        mu: &Scalar,
        nu: &Scalar,
        sponge_state: Seq<Scalar>,
        layer: &SecondLayer,
    ) -> bool {
        &&& mu@ != 0
        &&& shaped(error_terms@, ky_values@, self.spec_params())
        &&& layer.a@.len() == self.spec_params().spec_n()
        &&& layer.b@.len() == self.spec_params().spec_n()
        &&& all_of_rank(layer.a@, self.spec_rank())
        &&& all_of_rank(layer.b@, self.spec_rank())
        &&& views(layer.a@) == folded_groups(
            views(a@),
            self.spec_params().spec_n(),
            self.spec_params().spec_m(),
            finv(mu@),
            self.spec_rank().spec_num_coeffs(),
        )
        &&& views(layer.b@) == folded_groups(
            views(b@),
            self.spec_params().spec_n(),
            self.spec_params().spec_m(),
            fmul(mu@, nu@),
            self.spec_rank().spec_num_coeffs(),
        )
        &&& layer.witness.well_shaped(self.spec_params())
        &&& layer.witness.sponge_state@ == sponge_state
        &&& forall|g: int|
            0 <= g < self.spec_params().spec_n() ==> (
            #[trigger] layer.witness.collapsed@[g])@ == collapse_spec(
                claim_matrix(values(error_terms@[g]@), values(ky_values@[g]@)),
                finv(mu@),
                fmul(mu@, nu@),
            )
        &&& forall|i: nat, j: nat|
            i < self.spec_params().spec_n() && j < self.spec_params().spec_n() && i
                != j ==> (#[trigger] layer.witness.error_terms@[error_index(
                self.spec_params().spec_n(),
                i,
                j,
            )])@ == revdot_spec(layer.a@[i as int]@, layer.b@[j as int]@)
    }

    /// The round of the second layer: folds each group of claims with the
    /// inverse of `mu` on the one side and `mu * nu` on the other,
    /// collapses the claimed values and error terms of each group into one
    /// value, and computes the error terms between the folded groups. A
    /// challenge `mu` that is zero has no inverse and is refused; so are
    /// error terms and claimed values that are not those of `n` groups of
    /// `m` claims.
    pub fn compute_errors_n(
        &self,
        a: &Vec<structured::Polynomial>,
        b: &Vec<structured::Polynomial>,
        error_terms: &Vec<Vec<Scalar>>,
        ky_values: &Vec<Vec<Scalar>>,
        mu: &Scalar,
        nu: &Scalar,
        sponge_state: Vec<Scalar>,
    ) -> (r: Result<SecondLayer, Error>)
        requires
            a@.len() == self.spec_params().spec_n() * self.spec_params().spec_m(),
            b@.len() == self.spec_params().spec_n() * self.spec_params().spec_m(),
            all_of_rank(a@, self.spec_rank()),
            all_of_rank(b@, self.spec_rank()),
        ensures
            match r {
                Ok(layer) => self.second_layer(
                    a,
                    b,
                    error_terms,
                    ky_values,
                    mu,
                    nu,
                    sponge_state@,
                    &layer,
                ),
                Err(e) => if !shaped(error_terms@, ky_values@, self.spec_params()) {
                    e == Error::LengthMismatch
                } else {
                    mu@ == 0 && e == Error::DomainPointInvalid
                },
            },
    {
        let params = self.params();
        let n = params.n();
        let m = params.m();
        let per_group = params.error_terms_per_group();
        if error_terms.len() != n || ky_values.len() != n {
            return Err(Error::LengthMismatch);
        }
        let mut g: usize = 0;
        while g < n
            invariant
                g <= n,
                n == params.spec_n(),
                m == params.spec_m(),
                params == self.spec_params(),
                per_group == error_terms_len(m as nat),
                error_terms@.len() == n,
                ky_values@.len() == n,
                forall|h: int| 0 <= h < g ==> (#[trigger] error_terms@[h])@.len() == per_group,
                forall|h: int| 0 <= h < g ==> (#[trigger] ky_values@[h])@.len() == m,
            decreases n - g,
        {
            if error_terms[g].len() != per_group || ky_values[g].len() != m {
                assert(!shaped(error_terms@, ky_values@, params)) by {
                    if shaped(error_terms@, ky_values@, params) {
                        assert(error_terms@[g as int]@.len() == error_terms_len(m as nat));
                        assert(ky_values@[g as int]@.len() == m);
                    }
                }
                return Err(Error::LengthMismatch);
            }
            g += 1;
        }
        assert(shaped(error_terms@, ky_values@, params));
        let mu_inv = match mu.invert() {
            Some(inv) => inv,
            None => {
                return Err(Error::DomainPointInvalid);
            },
        };
        let munu = mu.mul(nu);
        let folded_a = fold_polys_m(a, &mu_inv, params, self.rank());
        let folded_b = fold_polys_m(b, &munu, params, self.rank());
        let mut collapsed: Vec<Scalar> = Vec::new();
        let mut g: usize = 0;
        while g < n
            invariant
                g <= n,
                n == params.spec_n(),
                m == params.spec_m(),
                shaped(error_terms@, ky_values@, params),
                mu@ != 0,
                collapsed@.len() == g,
                forall|h: int|
                    0 <= h < g ==> (#[trigger] collapsed@[h])@ == collapse_spec(
                        claim_matrix(values(error_terms@[h]@), values(ky_values@[h]@)),
                        finv(mu@),
                        fmul(mu@, nu@),
                    ),
            decreases n - g,
        {
            assert(error_terms@[g as int]@.len() == error_terms_len(m as nat));
            assert(ky_values@[g as int]@.len() == m);
            let c = match compute_c(mu, nu, &error_terms[g], &ky_values[g]) {
                Ok(c) => c,
                Err(e) => {
                    return Err(e);
                },
            };
            collapsed.push(c);
            g += 1;
        }
        let errors = compute_errors_n(&folded_a, &folded_b, params, self.rank());
        Ok(
            SecondLayer {
                witness: error_n::Witness { error_terms: errors, collapsed, sponge_state },
                a: folded_a,
                b: folded_b,
            },
        )
    }
}

/// Whether the error terms and claimed values are those of `n` groups of
/// `m` claims.
pub open spec fn shaped(
    error_terms: Seq<Vec<Scalar>>,
    ky_values: Seq<Vec<Scalar>>,
    params: crate::fold_revdot::Parameters,
) -> bool {
    &&& error_terms.len() == params.spec_n()
    &&& ky_values.len() == params.spec_n()
    &&& forall|g: int|
        0 <= g < params.spec_n() ==> (#[trigger] error_terms[g])@.len() == error_terms_len(
            params.spec_m(),
        )
    &&& forall|g: int| 0 <= g < params.spec_n() ==> (
        #[trigger] ky_values[g]
    )@.len() == params.spec_m()
}

} // verus!
