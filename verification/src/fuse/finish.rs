//! The end of a fusion: the proof is put together from what the rounds
//! made, and handed out only if it holds together.

use crate::error::Error;
use crate::fuse::Application;
use crate::pcd::ABProof;
use crate::pcd::ApplicationProof;
use crate::pcd::Challenges;
use crate::pcd::CommittedStructured;
use crate::pcd::CommittedUnstructured;
use crate::pcd::ErrorMProof;
use crate::pcd::ErrorNProof;
use crate::pcd::EvalProof;
use crate::pcd::FProof;
use crate::pcd::InternalCircuits;
use crate::pcd::PProof;
use crate::pcd::PreambleProof;
use crate::pcd::Proof;
use crate::pcd::QueryProof;
use crate::pcd::SPrimeProof;
use crate::pcd::is_trivial;
use crate::pcd::trivial;
use crate::polynomials::values;
use vstd::prelude::*;

verus! {

impl Application {
    /// What holds of every proof that a fusion of this application hands
    /// out: both headers have the size that the application fixes; every
    /// polynomial committed on the host curve has the rank of the
    /// application; every commitment, on the host curve and on the
    /// nested curve, is the Pedersen commitment to its polynomial under
    /// its blinding factor and the generators that the application has
    /// for that curve; `c` is the reversed dot product of the folded
    /// polynomials `A` and `B`; and `v` is the value of the accumulated
    /// polynomial at the challenge `u`.
    pub open spec fn admits(&self, proof: &Proof) -> bool {
        &&& proof.application.left_header@.len() == self.spec_header_size()
        &&& proof.application.right_header@.len() == self.spec_header_size()
        &&& proof.of_rank(self.spec_rank())
        &&& proof.claims_hold()
        &&& proof.consistent(self.spec_generators())
        &&& proof.nested_consistent(self.spec_nested_generators())
    }

    /// Whether every commitment on the nested curve opens to its
    /// polynomial: each is computed anew and compared.
    fn nested_opens(&self, proof: &Proof) -> (r: bool)
        ensures
            r == proof.nested_consistent(self.spec_nested_generators()),
    {
        let g = self.nested_generators();
        proof.preamble.nested_rx.verify(g) && proof.s_prime.nested_s_prime_rx.verify(g)
            && proof.error_n.nested_rx.verify(g) && proof.error_m.nested_rx.verify(g)
            && proof.ab.nested_rx.verify(g) && proof.query.nested_rx.verify(g)
            && proof.f.nested_rx.verify(g) && proof.eval.nested_rx.verify(g)
    }

    /// Whether every polynomial committed on the host curve has the rank
    /// of the application.
    fn has_rank(&self, proof: &Proof) -> (r: bool)
        ensures
            r == proof.of_rank(self.spec_rank()),
    {
        let rank = self.rank();
        proof.application.rx.poly().rank() == rank && proof.preamble.native_rx.poly().rank()
            == rank && proof.s_prime.registry_wx0.poly().rank() == rank
            && proof.s_prime.registry_wx1.poly().rank() == rank
            && proof.error_n.native_rx.poly().rank() == rank
            && proof.error_m.registry_wy.poly().rank() == rank
            && proof.error_m.native_rx.poly().rank() == rank && proof.ab.a.poly().rank() == rank
            && proof.ab.b.poly().rank() == rank && proof.query.registry_xy.poly().rank() == rank
            && proof.query.native_rx.poly().rank() == rank && proof.f.poly.poly().rank() == rank
            && proof.eval.native_rx.poly().rank() == rank && proof.p.poly.poly().rank() == rank
            && proof.circuits.hashes_1.poly().rank() == rank
            && proof.circuits.hashes_2.poly().rank() == rank
            && proof.circuits.partial_collapse.poly().rank() == rank
            && proof.circuits.full_collapse.poly().rank() == rank
            && proof.circuits.compute_v.poly().rank() == rank
    }

    fn opens_structured(&self, cp: &CommittedStructured) -> (r: bool)
        requires
            cp.spec_poly().spec_rank() == self.spec_rank(),
        ensures
            r == cp.consistent(self.spec_generators()),
    {
        let _ = cp.poly().rank();
        cp.verify(self.generators())
    }

    fn opens_unstructured(&self, cp: &CommittedUnstructured) -> (r: bool)
        requires
            cp.spec_poly().spec_rank() == self.spec_rank(),
        ensures
            r == cp.consistent(self.spec_generators()),
    {
        let _ = cp.poly().rank();
        cp.verify(self.generators())
    }

    /// Whether every commitment on the host curve opens to its polynomial:
    /// each is computed anew and compared.
    fn opens(&self, proof: &Proof) -> (r: bool)
        requires
            proof.of_rank(self.spec_rank()),
        ensures
            r == proof.consistent(self.spec_generators()),
    {
        self.opens_structured(&proof.application.rx) && self.opens_structured(
            &proof.preamble.native_rx,
        ) && self.opens_unstructured(&proof.s_prime.registry_wx0) && self.opens_unstructured(
            &proof.s_prime.registry_wx1,
        ) && self.opens_structured(&proof.error_n.native_rx) && self.opens_structured(
            &proof.error_m.registry_wy,
        ) && self.opens_structured(&proof.error_m.native_rx) && self.opens_structured(&proof.ab.a)
            && self.opens_structured(&proof.ab.b) && self.opens_unstructured(
            &proof.query.registry_xy,
        ) && self.opens_structured(&proof.query.native_rx) && self.opens_unstructured(
            &proof.f.poly,
        ) && self.opens_structured(&proof.eval.native_rx) && self.opens_unstructured(
            &proof.p.poly,
        ) && self.opens_structured(&proof.circuits.hashes_1) && self.opens_structured(
            &proof.circuits.hashes_2,
        ) && self.opens_structured(&proof.circuits.partial_collapse) && self.opens_structured(
            &proof.circuits.full_collapse,
        ) && self.opens_structured(&proof.circuits.compute_v)
    }

    /// Whether the proof is one that the application admits. The sizes,
    /// the ranks and the two claimed values are looked at first; then every
    /// commitment, on the nested curve and on the host curve, is computed
    /// anew and compared.
    pub fn check(&self, proof: &Proof) -> (r: bool)
        ensures
            r == self.admits(proof),
    {
        let size = self.header_size();
        if proof.application.left_header.len() != size || proof.application.right_header.len()
            != size {
            return false;
        }
        if !self.has_rank(proof) {
            return false;
        }
        let c = proof.ab.a.poly().revdot(proof.ab.b.poly());
        let v = proof.p.poly.poly().eval(&proof.challenges.u);
        if !(c.equals(&proof.ab.c) && v.equals(&proof.p.v)) {
            return false;
        }
        self.nested_opens(proof) && self.opens(proof)
    }

    /// The proof from which every chain of fusions of this application
    /// starts, which the application admits. Where the generators of the
    /// nested curve are too few for the coefficients of the rank it is
    /// refused, with the number of those coefficients.
    pub fn trivial_proof(&self, num_steps: usize) -> (r: Result<Proof, Error>)
        ensures
            match r {
                Ok(p) => {
                    &&& self.spec_rank().spec_num_coeffs()
                        <= self.spec_nested_generators().g().len()
                    &&& is_trivial(
                        &p,
                        self.spec_rank(),
                        self.spec_header_size() as usize,
                        num_steps,
                        self.spec_generators(),
                        self.spec_nested_generators(),
                    )
                    &&& self.admits(&p)
                },
                Err(e) => {
                    &&& self.spec_rank().spec_num_coeffs()
                        > self.spec_nested_generators().g().len()
                    &&& e == Error::CoefficientBoundExceeded(
                        self.spec_rank().spec_num_coeffs() as usize,
                    )
                },
            },
    {
        let r = trivial(
            self.rank(),
            self.header_size(),
            num_steps,
            self.generators(),
            self.nested_generators(),
        );
        proof {
            if r is Ok {
                let p = r->Ok_0;
                assert(values(p.application.left_header@).len() == self.spec_header_size());
                assert(values(p.application.right_header@).len() == self.spec_header_size());
            }
        }
        r
    }

    /// The proof of a fusion, put together from the step that the
    /// application ran, the nine rounds, the challenges that
    /// [`Action::Finish`](crate::fuse::schedule::Action::Finish) hands out
    /// and the five circuits. It is handed out exactly when the
    /// application admits it; what does not hold together is refused, and
    /// no part of it is handed out.
    pub fn assemble(
        &self,
        application: ApplicationProof,
        preamble: PreambleProof,
        s_prime: SPrimeProof,
        error_n: ErrorNProof,
        error_m: ErrorMProof,
        ab: ABProof,
        query: QueryProof,
        f: FProof,
        eval: EvalProof,
        p: PProof,
        challenges: Challenges,
        circuits: InternalCircuits,
    ) -> (r: Result<Proof, Error>)
        ensures
            match r {
                Ok(proof) => {
                    &&& proof == (Proof {
                        application,
                        preamble,
                        s_prime,
                        error_n,
                        error_m,
                        ab,
                        query,
                        f,
                        eval,
                        p,
                        challenges,
                        circuits,
                    })
                    &&& self.admits(&proof)
                },
                Err(e) => {
                    &&& !self.admits(
                        &(Proof {
                            application,
                            preamble,
                            s_prime,
                            error_n,
                            error_m,
                            ab,
                            query,
                            f,
                            eval,
                            p,
                            challenges,
                            circuits,
                        }),
                    )
                    &&& e == Error::InconsistentProof
                },
            },
    {
        let proof = Proof {
            application,
            preamble,
            s_prime,
            error_n,
            error_m,
            ab,
            query,
            f,
            eval,
            p,
            challenges,
            circuits,
        };
        if self.check(&proof) {
            Ok(proof)
        } else {
            Err(Error::InconsistentProof)
        }
    }
}

} // verus!
