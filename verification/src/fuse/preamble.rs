//! The rounds that commit to what the arithmetizer and the registry hand
//! over: the preamble and the restricted registry polynomials.

use crate::field::Scalar;
use crate::fuse::Application;
use crate::pcd::CommittedStructured;
use crate::pcd::CommittedUnstructured;
use crate::pcd::Proof;
use crate::polynomials::committed::Committable;
use crate::polynomials::structured;
use crate::polynomials::unstructured;
use rand::rngs::StdRng;
use vstd::prelude::*;

verus! {

impl Application {
    /// The preamble round on the host curve: commits to the trace of the
    /// preamble stage under a blinding factor drawn from `rng`.
    pub fn compute_preamble(&self, rng: &mut StdRng, rx: &structured::Polynomial) -> (r:
        CommittedStructured)
        requires
            rx.spec_rank() == self.spec_rank(),
        ensures
            r.spec_poly()@ == rx@,
            r.spec_poly().spec_rank() == rx.spec_rank(),
            r.consistent(self.spec_generators()),
    {
        let _ = rx.rank();
        rx.commit(self.generators(), rng)
    }

    /// The points at which the registry polynomial is restricted in the
    /// second round: the `x` challenges of the left and of the right
    /// proof.
    pub fn s_prime_points(&self, left: &Proof, right: &Proof) -> (r: (Scalar, Scalar))
        ensures
            r.0 == left.challenges.x,
            r.1 == right.challenges.x,
    {
        (left.challenges.x, right.challenges.x)
    }

    /// The second round on the host curve: commits to the registry
    /// polynomial restricted to `w` and each of the two points of
    /// [`Application::s_prime_points`], each under a blinding factor drawn
    /// from `rng`.
    pub fn compute_s_prime(
        &self,
        rng: &mut StdRng,
        registry_wx0: &unstructured::Polynomial,
        registry_wx1: &unstructured::Polynomial,
    ) -> (r: (CommittedUnstructured, CommittedUnstructured))
        requires
            registry_wx0.spec_rank() == self.spec_rank(),
            registry_wx1.spec_rank() == self.spec_rank(),
        ensures
            r.0.spec_poly()@ == registry_wx0@,
            r.0.spec_poly().spec_rank() == self.spec_rank(),
            r.0.consistent(self.spec_generators()),
            r.1.spec_poly()@ == registry_wx1@,
            r.1.spec_poly().spec_rank() == self.spec_rank(),
            r.1.consistent(self.spec_generators()),
    {
        let _ = registry_wx0.rank();
        let _ = registry_wx1.rank();
        let first = registry_wx0.commit(self.generators(), rng);
        let second = registry_wx1.commit(self.generators(), rng);
        (first, second)
    }
}

} // verus!
