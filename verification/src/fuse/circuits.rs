//! The last step of a fusion: the public inputs of the fusion are gathered
//! from its rounds, and the traces of the circuits that check the rounds
//! against those public inputs are put into polynomials and committed to.

use crate::circuits::unified::Instance;
use crate::error::Error;
use crate::fuse::Application;
use crate::field::Scalar;
use crate::pcd::ABProof;
use crate::pcd::ApplicationProof;
use crate::pcd::Challenges;
use crate::pcd::CircuitIndex;
use crate::pcd::CommittedStructured;
use crate::pcd::ErrorMProof;
use crate::pcd::ErrorNProof;
use crate::pcd::EvalProof;
use crate::pcd::FProof;
use crate::pcd::InternalCircuits;
use crate::pcd::PProof;
use crate::pcd::PreambleProof;
use crate::pcd::QueryProof;
use crate::pcd::SPrimeProof;
use crate::polynomials::committed::Committable;
use crate::rx::assembled_spec;
use crate::rx::Key;
use crate::rx::Trace;
use rand::rngs::StdRng;
use vstd::prelude::*;

verus! {

/// The traces of the five checking circuits, as the arithmetizer recorded
/// them, and the public inputs that it ran the circuits on.
pub struct InternalTraces {
    /// The public inputs that all five circuits were run on.
    pub instance: Instance,
    /// The first transcript circuit.
    pub hashes_1: Trace,
    /// The second transcript circuit.
    pub hashes_2: Trace,
    /// The circuit of the first layer.
    pub partial_collapse: Trace,
    /// The circuit of the second layer.
    pub full_collapse: Trace,
    /// The circuit of the claimed value.
    pub compute_v: Trace,
}

impl InternalTraces {
    /// Whether every trace is well formed.
    pub open spec fn well_formed(&self) -> bool {
        &&& self.hashes_1.well_formed()
        &&& self.hashes_2.well_formed()
        &&& self.partial_collapse.well_formed()
        &&& self.full_collapse.well_formed()
        &&& self.compute_v.well_formed()
    }

    /// The largest number of gates that any of the traces has.
    pub open spec fn max_gates(&self) -> nat {
        let a = self.hashes_1.a().len();
        let b = self.hashes_2.a().len();
        let c = self.partial_collapse.a().len();
        let d = self.full_collapse.a().len();
        let e = self.compute_v.a().len();
        let ab = if a < b {
            b
        } else {
            a
        };
        let cd = if c < d {
            d
        } else {
            c
        };
        let abcd = if ab < cd {
            cd
        } else {
            ab
        };
        if abcd < e {
            e
        } else {
            abcd
        }
    }
}

impl Application {
    /// Whether `committed` is the trace put into a polynomial with `key`
    /// and committed to under the generators of the application.
    pub open spec fn commits_trace(
        &self,
        committed: &CommittedStructured,
        trace: &Trace,
        key: &Key,
    ) -> bool {
        &&& committed.spec_poly().spec_rank() == self.spec_rank()
        &&& committed.spec_poly()@ == assembled_spec(
            trace.a(),
            trace.b(),
            trace.c(),
            key.spec_value(),
            key.spec_inverse(),
            self.spec_rank().spec_n(),
        )
        &&& committed.consistent(self.spec_generators())
    }

    /// Puts one trace into a polynomial and commits to it.
    fn commit_trace(&self, rng: &mut StdRng, trace: &Trace, key: &Key) -> (r: Result<
        CommittedStructured,
        Error,
    >)
        requires
            trace.well_formed(),
        ensures
            match r {
                Ok(committed) => {
                    &&& trace.a().len() <= self.spec_rank().spec_n()
                    &&& self.commits_trace(&committed, trace, key)
                },
                Err(e) => {
                    &&& trace.a().len() > self.spec_rank().spec_n()
                    &&& e == Error::MultiplicationBoundExceeded(
                        self.spec_rank().spec_n() as usize,
                    )
                },
            },
    {
        match trace.assemble_with_key(key, self.rank()) {
            Ok(poly) => {
                let _ = poly.rank();
                Ok(poly.commit(self.generators(), rng))
            },
            Err(e) => Err(e),
        }
    }

    /// The first part of a proof: the place of the step in the registry,
    /// the two encoded headers, and the trace of the step put into a
    /// polynomial with the key of the registry and committed to under a
    /// blinding factor drawn from `rng`. Headers of another size than the
    /// application fixes, and then a trace with more gates than the rank
    /// offers, are refused, and nothing is committed to.
    pub fn application_proof(
        &self,
        rng: &mut StdRng,
        key: &Key,
        circuit_id: CircuitIndex,
        left_header: Vec<Scalar>,
        right_header: Vec<Scalar>,
        trace: &Trace,
    ) -> (r: Result<ApplicationProof, Error>)
        requires
            trace.well_formed(),
        ensures
            match r {
                Ok(made) => {
                    &&& left_header@.len() == self.spec_header_size()
                    &&& right_header@.len() == self.spec_header_size()
                    &&& trace.a().len() <= self.spec_rank().spec_n()
                    &&& made.circuit_id == circuit_id
                    &&& made.left_header@ == left_header@
                    &&& made.right_header@ == right_header@
                    &&& self.commits_trace(&made.rx, trace, key)
                },
                Err(e) => if left_header@.len() != self.spec_header_size() || right_header@.len()
                    != self.spec_header_size() {
                    e == Error::LengthMismatch
                } else {
                    &&& trace.a().len() > self.spec_rank().spec_n()
                    &&& e == Error::MultiplicationBoundExceeded(
                        self.spec_rank().spec_n() as usize,
                    )
                },
            },
    {
        let size = self.header_size();
        if left_header.len() != size || right_header.len() != size {
            return Err(Error::LengthMismatch);
        }
        match self.commit_trace(rng, trace, key) {
            Ok(rx) => Ok(ApplicationProof { circuit_id, left_header, right_header, rx }),
            Err(e) => Err(e),
        }
    }

    /// The public inputs of the fusion, which its five checking circuits
    /// share: the nested commitment of every round, the eleven challenges,
    /// the value `c` that the round of the folded polynomials claims, and
    /// the value `v` that the last round claims.
    pub fn unified_instance(
        &self,
        preamble: &PreambleProof,
        s_prime: &SPrimeProof,
        error_n: &ErrorNProof,
        error_m: &ErrorMProof,
        ab: &ABProof,
        query: &QueryProof,
        f: &FProof,
        eval: &EvalProof,
        p: &PProof,
        challenges: &Challenges,
    ) -> (r: Instance)
        ensures
            r.gathers(preamble, s_prime, error_n, error_m, ab, query, f, eval, p, challenges),
    {
        Instance::new(preamble, s_prime, error_n, error_m, ab, query, f, eval, p, challenges)
    }

    /// Puts the traces of the five checking circuits into polynomials, each
    /// with the key of the registry, and commits to each under a blinding
    /// factor drawn from `rng`. The polynomial of a trace is a function of
    /// the trace and of the key alone. The place of a circuit in the
    /// registry chooses the wiring polynomial that its trace is checked
    /// against, which the registry holds; it plays no part in the
    /// polynomial of the trace, and so no place is taken here. The traces
    /// must have been recorded for the public inputs `instance` of the
    /// fusion: traces that were recorded
    /// for other public inputs are refused, before anything is committed
    /// to. So is the round if one of the traces has more gates than the
    /// rank offers.
    pub fn compute_internal_circuits(
        &self,
        rng: &mut StdRng,
        instance: &Instance,
        traces: &InternalTraces,
        key: &Key,
    ) -> (r: Result<InternalCircuits, Error>)
        requires
            traces.well_formed(),
        ensures
            match r {
                Ok(circuits) => {
                    &&& traces.instance@ == instance@
                    &&& traces.max_gates() <= self.spec_rank().spec_n()
                    &&& self.commits_trace(&circuits.hashes_1, &traces.hashes_1, key)
                    &&& self.commits_trace(&circuits.hashes_2, &traces.hashes_2, key)
                    &&& self.commits_trace(
                        &circuits.partial_collapse,
                        &traces.partial_collapse,
                        key,
                    )
                    &&& self.commits_trace(&circuits.full_collapse, &traces.full_collapse, key)
                    &&& self.commits_trace(&circuits.compute_v, &traces.compute_v, key)
                },
                Err(e) => if traces.instance@ != instance@ {
                    e == Error::InstanceMismatch
                } else {
                    &&& traces.max_gates() > self.spec_rank().spec_n()
                    &&& e == Error::MultiplicationBoundExceeded(
                        self.spec_rank().spec_n() as usize,
                    )
                },
            },
    {
        if !traces.instance.equals(instance) {
            return Err(Error::InstanceMismatch);
        }
        let n = self.rank().n();
        if traces.hashes_1.len() > n || traces.hashes_2.len() > n || traces.partial_collapse.len()
            > n || traces.full_collapse.len() > n || traces.compute_v.len() > n {
            return Err(Error::MultiplicationBoundExceeded(n));
        }
        let hashes_1 = match self.commit_trace(rng, &traces.hashes_1, key) {
            Ok(c) => c,
            Err(e) => {
                return Err(e);
            },
        };
        let hashes_2 = match self.commit_trace(rng, &traces.hashes_2, key) {
            Ok(c) => c,
            Err(e) => {
                return Err(e);
            },
        };
        let partial_collapse = match self.commit_trace(rng, &traces.partial_collapse, key) {
            Ok(c) => c,
            Err(e) => {
                return Err(e);
            },
        };
        let full_collapse = match self.commit_trace(rng, &traces.full_collapse, key) {
            Ok(c) => c,
            Err(e) => {
                return Err(e);
            },
        };
        let compute_v = match self.commit_trace(rng, &traces.compute_v, key) {
            Ok(c) => c,
            Err(e) => {
                return Err(e);
            },
        };
        Ok(InternalCircuits { hashes_1, hashes_2, partial_collapse, full_collapse, compute_v })
    }
}

} // verus!
