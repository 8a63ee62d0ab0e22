//! The public inputs that every checking circuit of a fusion shares.

use crate::field::Scalar;
use crate::nested::NestedPoint;
use crate::pcd::ABProof;
use crate::pcd::Challenges;
use crate::pcd::ErrorMProof;
use crate::pcd::ErrorNProof;
use crate::pcd::EvalProof;
use crate::pcd::FProof;
use crate::pcd::PProof;
use crate::pcd::PreambleProof;
use crate::pcd::QueryProof;
use crate::pcd::SPrimeProof;
use vstd::prelude::*;

verus! {

/// The commitments absorbed and the challenges squeezed during a fusion, in
/// the order of the transcript, with the two claimed values `c` and `v`.
#[derive(Clone, Copy, Debug)]
pub struct Instance {
    /// The nested commitment of the preamble round.
    pub nested_preamble_commitment: NestedPoint,
    /// The challenge `w`.
    pub w: Scalar,
    /// The nested commitment of the round of the restricted registry
    /// polynomials.
    pub nested_s_prime_commitment: NestedPoint,
    /// The challenge `y`.
    pub y: Scalar,
    /// The challenge `z`.
    pub z: Scalar,
    /// The nested commitment of the round of the first layer's error terms.
    pub nested_error_m_commitment: NestedPoint,
    /// The challenge `mu`.
    pub mu: Scalar,
    /// The challenge `nu`.
    pub nu: Scalar,
    /// The nested commitment of the round of the second layer's error
    /// terms.
    pub nested_error_n_commitment: NestedPoint,
    /// The challenge `mu'`.
    pub mu_prime: Scalar,
    /// The challenge `nu'`.
    pub nu_prime: Scalar,
    /// The claimed value `revdot(A, B)`.
    pub c: Scalar,
    /// The nested commitment of the round of the folded polynomials.
    pub nested_ab_commitment: NestedPoint,
    /// The challenge `x`.
    pub x: Scalar,
    /// The nested commitment of the query round.
    pub nested_query_commitment: NestedPoint,
    /// The challenge `alpha`.
    pub alpha: Scalar,
    /// The nested commitment of the round of the combined quotient.
    pub nested_f_commitment: NestedPoint,
    /// The challenge `u`.
    pub u: Scalar,
    /// The nested commitment of the eval round.
    pub nested_eval_commitment: NestedPoint,
    /// The challenge from which the factor of the accumulation is derived.
    pub pre_beta: Scalar,
    /// The claimed value `p(u)`.
    pub v: Scalar,
}

impl View for Instance {
    type V = Seq<nat>;

    /// The public inputs as field elements, in the order of the fields, a
    /// point by its two coordinates.
    open spec fn view(&self) -> Seq<nat> {
        seq![
            self.nested_preamble_commitment.x@,
            self.nested_preamble_commitment.y@,
            self.w@,
            self.nested_s_prime_commitment.x@,
            self.nested_s_prime_commitment.y@,
            self.y@,
            self.z@,
            self.nested_error_m_commitment.x@,
            self.nested_error_m_commitment.y@,
            self.mu@,
            self.nu@,
            self.nested_error_n_commitment.x@,
            self.nested_error_n_commitment.y@,
            self.mu_prime@,
            self.nu_prime@,
            self.c@,
            self.nested_ab_commitment.x@,
            self.nested_ab_commitment.y@,
            self.x@,
            self.nested_query_commitment.x@,
            self.nested_query_commitment.y@,
            self.alpha@,
            self.nested_f_commitment.x@,
            self.nested_f_commitment.y@,
            self.u@,
            self.nested_eval_commitment.x@,
            self.nested_eval_commitment.y@,
            self.pre_beta@,
            self.v@,
        ]
    }
}

impl Instance {
    /// Whether these are the public inputs of the fusion with the given
    /// rounds and challenges: each nested commitment is that of the
    /// like-named round, the challenges are copied, `c` is the value that
    /// the round of the folded polynomials claims and `v` the value that
    /// the last round claims.
    pub open spec fn gathers(
        &self,
        preamble: &PreambleProof,
        s_prime: &SPrimeProof,
        error_n: &ErrorNProof,
        error_m: &ErrorMProof,
        ab: &ABProof,
        query: &QueryProof,
        f: &FProof,
        eval: &EvalProof,
        p: &PProof,
        challenges: &Challenges,
    ) -> bool {
        &&& self.nested_preamble_commitment == preamble.nested_rx.commitment
        &&& self.w == challenges.w
        &&& self.nested_s_prime_commitment == s_prime.nested_s_prime_rx.commitment
        &&& self.y == challenges.y
        &&& self.z == challenges.z
        &&& self.nested_error_m_commitment == error_m.nested_rx.commitment
        &&& self.mu == challenges.mu
        &&& self.nu == challenges.nu
        &&& self.nested_error_n_commitment == error_n.nested_rx.commitment
        &&& self.mu_prime == challenges.mu_prime
        &&& self.nu_prime == challenges.nu_prime
        &&& self.c == ab.c
        &&& self.nested_ab_commitment == ab.nested_rx.commitment
        &&& self.x == challenges.x
        &&& self.nested_query_commitment == query.nested_rx.commitment
        &&& self.alpha == challenges.alpha
        &&& self.nested_f_commitment == f.nested_rx.commitment
        &&& self.u == challenges.u
        &&& self.nested_eval_commitment == eval.nested_rx.commitment
        &&& self.pre_beta == challenges.pre_beta
        &&& self.v == p.v
    }

    /// Whether the two are the same public inputs.
    pub fn equals(&self, other: &Instance) -> (r: bool)
        ensures
            r == (self@ == other@),
    {
        let same = self.nested_preamble_commitment.equals(&other.nested_preamble_commitment)
            && self.w.equals(&other.w)
            && self.nested_s_prime_commitment.equals(&other.nested_s_prime_commitment)
            && self.y.equals(&other.y)
            && self.z.equals(&other.z)
            && self.nested_error_m_commitment.equals(&other.nested_error_m_commitment)
            && self.mu.equals(&other.mu)
            && self.nu.equals(&other.nu)
            && self.nested_error_n_commitment.equals(&other.nested_error_n_commitment)
            && self.mu_prime.equals(&other.mu_prime)
            && self.nu_prime.equals(&other.nu_prime)
            && self.c.equals(&other.c)
            && self.nested_ab_commitment.equals(&other.nested_ab_commitment)
            && self.x.equals(&other.x)
            && self.nested_query_commitment.equals(&other.nested_query_commitment)
            && self.alpha.equals(&other.alpha)
            && self.nested_f_commitment.equals(&other.nested_f_commitment)
            && self.u.equals(&other.u)
            && self.nested_eval_commitment.equals(&other.nested_eval_commitment)
            && self.pre_beta.equals(&other.pre_beta)
            && self.v.equals(&other.v);
        proof {
            if same {
                assert(self@ =~= other@);
            } else {
                let a = self@;
                let b = other@;
                if a == b {
                    assert(a[0] == b[0] && a[1] == b[1]);
                    assert(a[2] == b[2]);
                    assert(a[3] == b[3] && a[4] == b[4]);
                    assert(a[5] == b[5]);
                    assert(a[6] == b[6]);
                    assert(a[7] == b[7] && a[8] == b[8]);
                    assert(a[9] == b[9]);
                    assert(a[10] == b[10]);
                    assert(a[11] == b[11] && a[12] == b[12]);
                    assert(a[13] == b[13]);
                    assert(a[14] == b[14]);
                    assert(a[15] == b[15]);
                    assert(a[16] == b[16] && a[17] == b[17]);
                    assert(a[18] == b[18]);
                    assert(a[19] == b[19] && a[20] == b[20]);
                    assert(a[21] == b[21]);
                    assert(a[22] == b[22] && a[23] == b[23]);
                    assert(a[24] == b[24]);
                    assert(a[25] == b[25] && a[26] == b[26]);
                    assert(a[27] == b[27]);
                    assert(a[28] == b[28]);
                }
            }
        }
        same
    }

    /// The public inputs of a fusion, gathered from its rounds.
    pub fn new(
        preamble: &PreambleProof,
        s_prime: &SPrimeProof,
        error_n: &ErrorNProof,
        error_m: &ErrorMProof,
        ab: &ABProof,
        query: &QueryProof,
        f: &FProof,
        eval: &EvalProof,
        p: &PProof,
        challenges: &Challenges,
    ) -> (r: Instance)
        ensures
            r.nested_preamble_commitment == preamble.nested_rx.commitment,
            r.w == challenges.w,
            r.nested_s_prime_commitment == s_prime.nested_s_prime_rx.commitment,
            r.y == challenges.y,
            r.z == challenges.z,
            r.nested_error_m_commitment == error_m.nested_rx.commitment,
            r.mu == challenges.mu,
            r.nu == challenges.nu,
            r.nested_error_n_commitment == error_n.nested_rx.commitment,
            r.mu_prime == challenges.mu_prime,
            r.nu_prime == challenges.nu_prime,
            r.c == ab.c,
            r.nested_ab_commitment == ab.nested_rx.commitment,
            r.x == challenges.x,
            r.nested_query_commitment == query.nested_rx.commitment,
            r.alpha == challenges.alpha,
            r.nested_f_commitment == f.nested_rx.commitment,
            r.u == challenges.u,
            r.nested_eval_commitment == eval.nested_rx.commitment,
            r.pre_beta == challenges.pre_beta,
            r.v == p.v,
    {
        Instance {
            nested_preamble_commitment: preamble.nested_rx.commitment,
            w: challenges.w,
            nested_s_prime_commitment: s_prime.nested_s_prime_rx.commitment,
            y: challenges.y,
            z: challenges.z,
            nested_error_m_commitment: error_m.nested_rx.commitment,
            mu: challenges.mu,
            nu: challenges.nu,
            nested_error_n_commitment: error_n.nested_rx.commitment,
            mu_prime: challenges.mu_prime,
            nu_prime: challenges.nu_prime,
            c: ab.c,
            nested_ab_commitment: ab.nested_rx.commitment,
            x: challenges.x,
            nested_query_commitment: query.nested_rx.commitment,
            alpha: challenges.alpha,
            nested_f_commitment: f.nested_rx.commitment,
            u: challenges.u,
            nested_eval_commitment: eval.nested_rx.commitment,
            pre_beta: challenges.pre_beta,
            v: p.v,
        }
    }
}

} // verus!
