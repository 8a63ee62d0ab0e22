//! The stage that holds the value at `u` of every polynomial committed so
//! far.

use crate::error::Error;
use crate::field::Scalar;
use crate::pcd::ABProof;
use crate::pcd::ErrorMProof;
use crate::pcd::Proof;
use crate::pcd::QueryProof;
use crate::pcd::SPrimeProof;
use crate::polynomials::eval_spec;
use crate::polynomials::staging::rx_spec;
use crate::polynomials::staging::StagingCircuit;
use crate::polynomials::structured;
use crate::polynomials::values;
use crate::polynomials::Rank;
use vstd::prelude::*;

verus! {

/// The number of evaluations at `u` for each of the two proofs consumed.
pub const NUM_EVALS_PER_CHILD_PROOF: usize = 15;

/// The number of evaluations at `u` for the polynomials of the fusion under
/// way.
pub const NUM_EVALS_FOR_CURRENT_STEP: usize = 6;

/// The polynomials of a proof that are evaluated, in the order of the
/// fields of [`ChildEvaluations`], which is the order in which the last
/// round accumulates them.
pub open spec fn child_polynomials(proof: &Proof) -> Seq<Seq<nat>> {
    seq![
        proof.application.rx.spec_poly()@,
        proof.preamble.native_rx.spec_poly()@,
        proof.error_n.native_rx.spec_poly()@,
        proof.error_m.native_rx.spec_poly()@,
        proof.ab.a.spec_poly()@,
        proof.ab.b.spec_poly()@,
        proof.query.native_rx.spec_poly()@,
        proof.query.registry_xy.spec_poly()@,
        proof.eval.native_rx.spec_poly()@,
        proof.p.poly.spec_poly()@,
        proof.circuits.hashes_1.spec_poly()@,
        proof.circuits.hashes_2.spec_poly()@,
        proof.circuits.partial_collapse.spec_poly()@,
        proof.circuits.full_collapse.spec_poly()@,
        proof.circuits.compute_v.spec_poly()@,
    ]
}

/// The polynomials of the fusion under way that are evaluated, in the order
/// of the last six fields of [`Output`].
pub open spec fn current_polynomials(
    s_prime: &SPrimeProof,
    error_m: &ErrorMProof,
    ab: &ABProof,
    query: &QueryProof,
) -> Seq<Seq<nat>> {
    seq![
        s_prime.registry_wx0.spec_poly()@,
        s_prime.registry_wx1.spec_poly()@,
        error_m.registry_wy.spec_poly()@,
        ab.a.spec_poly()@,
        ab.b.spec_poly()@,
        query.registry_xy.spec_poly()@,
    ]
}

/// Each polynomial of the list at `u`.
pub open spec fn evaluations(polys: Seq<Seq<nat>>, u: nat) -> Seq<nat> {
    Seq::new(polys.len(), |i: int| eval_spec(polys[i], u))
}

/// What the stage is made from.
pub struct Witness<'a> {
    /// The point of evaluation.
    pub u: Scalar,
    /// The left proof.
    pub left: &'a Proof,
    /// The right proof.
    pub right: &'a Proof,
    /// The round of the restricted registry polynomials.
    pub s_prime: &'a SPrimeProof,
    /// The round of the first layer's error terms.
    pub error_m: &'a ErrorMProof,
    /// The round of the folded polynomials.
    pub ab: &'a ABProof,
    /// The round of the queries.
    pub query: &'a QueryProof,
}

/// The values at `u` of the polynomials of one of the two proofs consumed.
#[derive(Clone, Copy, Debug)]
pub struct ChildEvaluations {
    /// The trace of the step.
    pub application: Scalar,
    /// The preamble stage.
    pub preamble: Scalar,
    /// The stage of the second layer's error terms.
    pub error_n: Scalar,
    /// The stage of the first layer's error terms.
    pub error_m: Scalar,
    /// The folded polynomial `A`.
    pub a_poly: Scalar,
    /// The folded polynomial `B`.
    pub b_poly: Scalar,
    /// The query stage.
    pub query: Scalar,
    /// The registry polynomial at `x` and `y`.
    pub registry_xy_poly: Scalar,
    /// The eval stage.
    pub eval: Scalar,
    /// The accumulated polynomial.
    pub p_poly: Scalar,
    /// The first transcript circuit.
    pub hashes_1: Scalar,
    /// The second transcript circuit.
    pub hashes_2: Scalar,
    /// The circuit of the first layer.
    pub partial_collapse: Scalar,
    /// The circuit of the second layer.
    pub full_collapse: Scalar,
    /// The circuit of the claimed value.
    pub compute_v: Scalar,
}

impl View for ChildEvaluations {
    type V = Seq<nat>;

    /// The fifteen values, in the order of the fields.
    open spec fn view(&self) -> Seq<nat> {
        seq![
            self.application@,
            self.preamble@,
            self.error_n@,
            self.error_m@,
            self.a_poly@,
            self.b_poly@,
            self.query@,
            self.registry_xy_poly@,
            self.eval@,
            self.p_poly@,
            self.hashes_1@,
            self.hashes_2@,
            self.partial_collapse@,
            self.full_collapse@,
            self.compute_v@,
        ]
    }
}

impl ChildEvaluations {
    /// The polynomials of `proof` evaluated at `u`.
    pub fn evaluate(proof: &Proof, u: &Scalar) -> (r: ChildEvaluations)
        ensures
            r@ == evaluations(child_polynomials(proof), u@),
    {
        let r = ChildEvaluations {
            application: proof.application.rx.poly().eval(u),
            preamble: proof.preamble.native_rx.poly().eval(u),
            error_n: proof.error_n.native_rx.poly().eval(u),
            error_m: proof.error_m.native_rx.poly().eval(u),
            a_poly: proof.ab.a.poly().eval(u),
            b_poly: proof.ab.b.poly().eval(u),
            query: proof.query.native_rx.poly().eval(u),
            registry_xy_poly: proof.query.registry_xy.poly().eval(u),
            eval: proof.eval.native_rx.poly().eval(u),
            p_poly: proof.p.poly.poly().eval(u),
            hashes_1: proof.circuits.hashes_1.poly().eval(u),
            hashes_2: proof.circuits.hashes_2.poly().eval(u),
            partial_collapse: proof.circuits.partial_collapse.poly().eval(u),
            full_collapse: proof.circuits.full_collapse.poly().eval(u),
            compute_v: proof.circuits.compute_v.poly().eval(u),
        };
        assert(r@ =~= evaluations(child_polynomials(proof), u@));
        r
    }

    /// The fifteen values, in the order of the fields.
    pub fn to_values(&self) -> (r: Vec<Scalar>)
        ensures
            values(r@) == self@,
    {
        let mut r: Vec<Scalar> = Vec::new();
        r.push(self.application);
        r.push(self.preamble);
        r.push(self.error_n);
        r.push(self.error_m);
        r.push(self.a_poly);
        r.push(self.b_poly);
        r.push(self.query);
        r.push(self.registry_xy_poly);
        r.push(self.eval);
        r.push(self.p_poly);
        r.push(self.hashes_1);
        r.push(self.hashes_2);
        r.push(self.partial_collapse);
        r.push(self.full_collapse);
        r.push(self.compute_v);
        assert(values(r@) =~= self@);
        r
    }
}

/// What the eval stage holds: the evaluations for the two proofs consumed
/// and for the fusion under way.
#[derive(Clone, Copy, Debug)]
pub struct Output {
    /// The left proof.
    pub left: ChildEvaluations,
    /// The right proof.
    pub right: ChildEvaluations,
    /// The registry polynomial at `w` and the left proof's `x`.
    pub registry_wx0: Scalar,
    /// The registry polynomial at `w` and the right proof's `x`.
    pub registry_wx1: Scalar,
    /// The registry polynomial at `w` and `y`.
    pub registry_wy: Scalar,
    /// The folded polynomial `A`.
    pub a_poly: Scalar,
    /// The folded polynomial `B`.
    pub b_poly: Scalar,
    /// The registry polynomial at `x` and `y`.
    pub registry_xy: Scalar,
}

impl View for Output {
    type V = Seq<nat>;

    /// The values of the stage, in the order in which they are laid out.
    open spec fn view(&self) -> Seq<nat> {
        self.left@ + self.right@ + seq![
            self.registry_wx0@,
            self.registry_wx1@,
            self.registry_wy@,
            self.a_poly@,
            self.b_poly@,
            self.registry_xy@,
        ]
    }
}

/// The eval stage.
#[derive(Clone, Copy, Debug)]
pub struct Stage;

impl Stage {
    /// The number of values of the stage.
    pub fn values() -> (r: usize)
        ensures
            r == 36,
    {
        NUM_EVALS_PER_CHILD_PROOF * 2 + NUM_EVALS_FOR_CURRENT_STEP
    }

    /// The stage for the given witness: every polynomial at `u`.
    pub fn witness(witness: &Witness) -> (r: Output)
        ensures
            r@ == evaluations(child_polynomials(witness.left), witness.u@) + evaluations(
                child_polynomials(witness.right),
                witness.u@,
            ) + evaluations(
                current_polynomials(witness.s_prime, witness.error_m, witness.ab, witness.query),
                witness.u@,
            ),
    {
        let u = &witness.u;
        let r = Output {
            left: ChildEvaluations::evaluate(witness.left, u),
            right: ChildEvaluations::evaluate(witness.right, u),
            registry_wx0: witness.s_prime.registry_wx0.poly().eval(u),
            registry_wx1: witness.s_prime.registry_wx1.poly().eval(u),
            registry_wy: witness.error_m.registry_wy.poly().eval(u),
            a_poly: witness.ab.a.poly().eval(u),
            b_poly: witness.ab.b.poly().eval(u),
            registry_xy: witness.query.registry_xy.poly().eval(u),
        };
        assert(seq![
            r.registry_wx0@,
            r.registry_wx1@,
            r.registry_wy@,
            r.a_poly@,
            r.b_poly@,
            r.registry_xy@,
        ] =~= evaluations(
            current_polynomials(witness.s_prime, witness.error_m, witness.ab, witness.query),
            witness.u@,
        ));
        r
    }

    /// The values of the stage in the order in which they are laid out.
    pub fn stage_values(output: &Output) -> (r: Vec<Scalar>)
        ensures
            values(r@) == output@,
    {
        let mut r = output.left.to_values();
        let right = output.right.to_values();
        crate::polynomials::extend_dense(&mut r, &right);
        let ghost before = values(r@);
        r.push(output.registry_wx0);
        r.push(output.registry_wx1);
        r.push(output.registry_wy);
        r.push(output.a_poly);
        r.push(output.b_poly);
        r.push(output.registry_xy);
        assert(values(r@) =~= before + seq![
            output.registry_wx0@,
            output.registry_wx1@,
            output.registry_wy@,
            output.a_poly@,
            output.b_poly@,
            output.registry_xy@,
        ]);
        r
    }

    /// The trace polynomial of the stage, laid out after the gates of
    /// `parent`.
    pub fn rx(witness: &Witness, parent: &StagingCircuit, rank: Rank) -> (r: Result<
        structured::Polynomial,
        Error,
    >)
        ensures
            match r {
                Ok(p) => {
                    &&& parent.spec_skip() + parent.spec_size() + 18 + 1 <= rank.spec_n()
                    &&& p.spec_rank() == rank
                    &&& p@ == rx_spec(
                        evaluations(child_polynomials(witness.left), witness.u@) + evaluations(
                            child_polynomials(witness.right),
                            witness.u@,
                        ) + evaluations(
                            current_polynomials(
                                witness.s_prime,
                                witness.error_m,
                                witness.ab,
                                witness.query,
                            ),
                            witness.u@,
                        ),
                        parent.spec_skip() + parent.spec_size(),
                        18,
                        rank.spec_n(),
                    )
                },
                Err(e) => {
                    &&& parent.spec_skip() + parent.spec_size() + 18 + 1 > rank.spec_n()
                    &&& e == Error::MultiplicationBoundExceeded(rank.spec_n() as usize)
                },
            },
    {
        let n = rank.n();
        let circuit = match StagingCircuit::after(parent, Stage::values()) {
            Some(c) => c,
            None => {
                return Err(Error::MultiplicationBoundExceeded(n));
            },
        };
        if circuit.skip() >= n || circuit.size() >= n - circuit.skip() {
            return Err(Error::MultiplicationBoundExceeded(n));
        }
        let output = Stage::witness(witness);
        let stage_values = Stage::stage_values(&output);
        assert(stage_values@.len() == values(stage_values@).len());
        circuit.rx(&stage_values, rank)
    }
}

} // verus!
