//! The round that evaluates every polynomial committed so far at `u`.

use crate::circuits::stages::eval;
use crate::circuits::stages::eval::child_polynomials;
use crate::circuits::stages::eval::current_polynomials;
use crate::circuits::stages::eval::evaluations;
use crate::field::Scalar;
use crate::fuse::Application;
use crate::pcd::ABProof;
use crate::pcd::ErrorMProof;
use crate::pcd::Proof;
use crate::pcd::QueryProof;
use crate::pcd::SPrimeProof;
use vstd::prelude::*;

verus! {

impl Application {
    /// The values at `u` of the polynomials of the left proof, of the right
    /// proof, and of the fusion under way, in the order in which the last
    /// round accumulates them.
    pub fn compute_eval(
        &self,
        u: &Scalar,
        left: &Proof,
        right: &Proof,
        s_prime: &SPrimeProof,
        error_m: &ErrorMProof,
        ab: &ABProof,
        query: &QueryProof,
    ) -> (r: eval::Output)
        ensures
            r@ == evaluations(child_polynomials(left), u@) + evaluations(
                child_polynomials(right),
                u@,
            ) + evaluations(current_polynomials(s_prime, error_m, ab, query), u@),
    {
        let witness = eval::Witness { u: *u, left, right, s_prime, error_m, ab, query };
        eval::Stage::witness(&witness)
    }
}

} // verus!
