//! The check of the first layer of the folding reduction: every group of
//! claims must collapse, under `mu` and `nu`, to the value that the stage of
//! the second layer holds for it.

use crate::algebra::lemma_fpow_adds;
use crate::circuits::compute_v::PreambleOutput;
use crate::circuits::stages::error_m;
use crate::circuits::stages::error_n;
use crate::circuits::unified::Instance;
use crate::error::Error;
use crate::field::finv;
use crate::field::fmul;
use crate::field::fpow;
use crate::field::Scalar;
use crate::fold_revdot::claim_matrix;
use crate::fold_revdot::collapse_spec;
use crate::fold_revdot::compute_c;
use crate::fold_revdot::error_terms_len;
use crate::fold_revdot::Parameters;
use crate::polynomials::values;
use vstd::arithmetic::power2::lemma_pow2_unfold;
use vstd::arithmetic::power2::lemma2_to64;
use vstd::arithmetic::power2::pow2;
use vstd::prelude::*;

verus! {

/// Whether `value` is a root of unity of order dividing `2^log2_order`.
pub fn is_root_of_unity(value: &Scalar, log2_order: u32) -> (r: bool)
    ensures
        r == (fpow(value@, pow2(log2_order as nat)) == 1),
{
    let mut acc = *value;
    let mut i: u32 = 0;
    value.in_range();
    proof {
        lemma2_to64();
        assert(fpow(value@, 0) == 1);
        assert(fpow(value@, 1) == fmul(value@, fpow(value@, 0)));
        crate::algebra::lemma_fmul_one(value@);
        crate::algebra::lemma_reduced(value@);
    }
    while i < log2_order
        invariant
            i <= log2_order,
            acc@ == fpow(value@, pow2(i as nat)),
        decreases log2_order - i,
    {
        proof {
            lemma_pow2_unfold((i + 1) as nat);
            lemma_fpow_adds(value@, pow2(i as nat), pow2(i as nat));
        }
        acc = acc.square();
        i += 1;
    }
    let one = Scalar::one();
    acc.equals(&one)
}

/// The check of the first layer of the folding reduction.
#[derive(Clone, Copy, Debug)]
pub struct Circuit {
    log2_circuits: u32,
}

/// What the check takes.
pub struct Witness<'a> {
    /// The public inputs of the fusion.
    pub unified_instance: &'a Instance,
    /// The preamble stage.
    pub preamble_witness: &'a PreambleOutput,
    /// The stage of the first layer's error terms.
    pub error_m_witness: &'a error_m::Output,
    /// The stage of the second layer's error terms.
    pub error_n_witness: &'a error_n::Witness,
    /// The claimed values of the claims, group by group.
    pub ky_values: &'a Vec<Vec<Scalar>>,
}

/// Whether the witness has the shape that the parameters fix.
pub open spec fn well_shaped(witness: &Witness, params: Parameters) -> bool {
    &&& witness.error_m_witness.error_terms@.len() == params.spec_n()
    &&& witness.ky_values@.len() == params.spec_n()
    &&& witness.error_n_witness.collapsed@.len() == params.spec_n()
    &&& forall|g: int|
        0 <= g < params.spec_n() ==> (#[trigger] witness.error_m_witness.error_terms@[g])@.len()
            == error_terms_len(params.spec_m())
    &&& forall|g: int|
        0 <= g < params.spec_n() ==> (#[trigger] witness.ky_values@[g])@.len() == params.spec_m()
}

/// Whether group `g` collapses to the value held for it.
pub open spec fn group_collapses(witness: &Witness, g: int) -> bool {
    witness.error_n_witness.collapsed@[g]@ == collapse_spec(
        claim_matrix(
            values(witness.error_m_witness.error_terms@[g]@),
            values(witness.ky_values@[g]@),
        ),
        finv(witness.unified_instance.mu@),
        fmul(witness.unified_instance.mu@, witness.unified_instance.nu@),
    )
}

impl Circuit {
    /// The binary logarithm of the size of the domain of circuits.
    pub closed spec fn spec_log2_circuits(&self) -> nat {
        self.log2_circuits as nat
    }

    /// The check for a domain of `2^log2_circuits` circuits.
    pub fn new(log2_circuits: u32) -> (r: Circuit)
        ensures
            r.spec_log2_circuits() == log2_circuits,
    {
        Circuit { log2_circuits }
    }

    /// Whether the witness passes: the points that stand for the circuits
    /// of the two proofs consumed lie in the domain, and every group
    /// collapses to the value held for it. A witness of the wrong shape and
    /// a challenge `mu` that is zero are refused.
    pub fn check(&self, witness: &Witness, params: Parameters) -> (r: Result<bool, Error>)
        ensures
            match r {
                Ok(accepted) => {
                    &&& well_shaped(witness, params)
                    &&& witness.unified_instance.mu@ != 0
                    &&& accepted == {
                        &&& fpow(
                            witness.preamble_witness.left.circuit_id@,
                            pow2(self.spec_log2_circuits()),
                        ) == 1
                        &&& fpow(
                            witness.preamble_witness.right.circuit_id@,
                            pow2(self.spec_log2_circuits()),
                        ) == 1
                        &&& forall|g: int|
                            0 <= g < params.spec_n() ==> #[trigger] group_collapses(witness, g)
                    }
                },
                Err(e) => if !well_shaped(witness, params) {
                    e == Error::LengthMismatch
                } else {
                    witness.unified_instance.mu@ == 0 && e == Error::DomainPointInvalid
                },
            },
    {
        let n = params.n();
        let m = params.m();
        let per_group = params.error_terms_per_group();
        let errors = &witness.error_m_witness.error_terms;
        let ky = witness.ky_values;
        let collapsed = &witness.error_n_witness.collapsed;
        if errors.len() != n || ky.len() != n || collapsed.len() != n {
            return Err(Error::LengthMismatch);
        }
        let mut g: usize = 0;
        while g < n
            invariant
                g <= n,
                n == params.spec_n(),
                m == params.spec_m(),
                per_group == error_terms_len(m as nat),
                errors == &witness.error_m_witness.error_terms,
                ky == witness.ky_values,
                errors@.len() == n,
                ky@.len() == n,
                forall|h: int| 0 <= h < g ==> (#[trigger] errors@[h])@.len() == per_group,
                forall|h: int| 0 <= h < g ==> (#[trigger] ky@[h])@.len() == m,
            decreases n - g,
        {
            if errors[g].len() != per_group || ky[g].len() != m {
                assert(!well_shaped(witness, params)) by {
                    if well_shaped(witness, params) {
                        assert(witness.error_m_witness.error_terms@[g as int]@.len()
                            == error_terms_len(params.spec_m()));
                        assert(witness.ky_values@[g as int]@.len() == params.spec_m());
                    }
                }
                return Err(Error::LengthMismatch);
            }
            g += 1;
        }
        assert(well_shaped(witness, params));
        if witness.unified_instance.mu.is_zero() {
            return Err(Error::DomainPointInvalid);
        }
        let mut all = true;
        let mut g: usize = 0;
        while g < n
            invariant
                g <= n,
                n == params.spec_n(),
                m == params.spec_m(),
                well_shaped(witness, params),
                witness.unified_instance.mu@ != 0,
                errors == &witness.error_m_witness.error_terms,
                ky == witness.ky_values,
                collapsed == &witness.error_n_witness.collapsed,
                all == forall|h: int| 0 <= h < g ==> #[trigger] group_collapses(witness, h),
            decreases n - g,
        {
            assert(errors@[g as int]@.len() == error_terms_len(m as nat));
            assert(ky@[g as int]@.len() == m);
            let c = compute_c(
                &witness.unified_instance.mu,
                &witness.unified_instance.nu,
                &errors[g],
                &ky[g],
            );
            let ok = match c {
                Ok(c) => c.equals(&collapsed[g]),
                Err(_) => false,
            };
            assert(ok == group_collapses(witness, g as int));
            all = all && ok;
            g += 1;
        }
        let left = is_root_of_unity(&witness.preamble_witness.left.circuit_id, self.log2_circuits);
        let right = is_root_of_unity(
            &witness.preamble_witness.right.circuit_id,
            self.log2_circuits,
        );
        Ok(left && right && all)
    }
}

} // verus!
