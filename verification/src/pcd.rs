//! Proofs and proof-carrying data.
//!
//! A [`Proof`] is what a fusion produces: one bundle for each round, the
//! challenges that the transcript gave, and the traces of the circuits that
//! check the rounds. It is made once and not changed afterwards; the next
//! fusion takes it whole.

use crate::curve::Generators;
use crate::field::Scalar;
use crate::nested::NestedCommitted;
use crate::nested::NestedGenerators;
use crate::nested::NestedScalar;
use crate::error::Error;
use crate::nested::NestedPolynomial;
use crate::polynomials::algebra::lemma_eval_of_zeros;
use crate::polynomials::algebra::lemma_revdot_zero;
use crate::polynomials::algebra::zero_poly;
use crate::polynomials::committed::Committable;
use crate::polynomials::committed::CommittedPolynomial;
use crate::polynomials::eval_spec;
use crate::polynomials::revdot_spec;
use crate::polynomials::structured;
use crate::polynomials::unstructured;
use crate::polynomials::values;
use crate::polynomials::zeros;
use crate::polynomials::Rank;
use vstd::prelude::*;

verus! {

/// A committed polynomial in the structured layout.
pub type CommittedStructured = CommittedPolynomial<structured::Polynomial>;

/// A committed polynomial in the unstructured layout.
pub type CommittedUnstructured = CommittedPolynomial<unstructured::Polynomial>;

/// The place of a circuit in the registry of an application.
#[derive(Clone, Copy, Debug, PartialEq, Eq, Structural)]
pub struct CircuitIndex {
    /// The number of the circuit.
    pub index: u32,
}

impl CircuitIndex {
    /// The index with the given number.
    pub fn new(index: u32) -> (r: CircuitIndex)
        ensures
            r.index == index,
    {
        CircuitIndex { index }
    }
}

/// The trace of the step that the application ran, and what identifies the
/// two proofs it consumed.
#[derive(Clone, Debug)]
pub struct ApplicationProof {
    /// The circuit of the step.
    pub circuit_id: CircuitIndex,
    /// The encoded header of the left proof.
    pub left_header: Vec<Scalar>,
    /// The encoded header of the right proof.
    pub right_header: Vec<Scalar>,
    /// The committed trace of the step.
    pub rx: CommittedStructured,
}

/// The bundle of the preamble round.
#[derive(Clone, Debug)]
pub struct PreambleProof {
    /// The committed trace of the stage.
    pub native_rx: CommittedStructured,
    /// What binds it on the nested curve.
    pub nested_rx: NestedCommitted,
}

/// The bundle of the round that restricts the registry polynomial to the
/// `x` challenges of the two proofs consumed.
#[derive(Clone, Debug)]
pub struct SPrimeProof {
    /// The registry polynomial at `w` and the left proof's `x`.
    pub registry_wx0: CommittedUnstructured,
    /// The registry polynomial at `w` and the right proof's `x`.
    pub registry_wx1: CommittedUnstructured,
    /// What binds the two on the nested curve.
    pub nested_s_prime_rx: NestedCommitted,
}

/// The bundle of the round that holds the error terms of the second layer
/// and the values that the groups collapsed to.
#[derive(Clone, Debug)]
pub struct ErrorNProof {
    /// The committed trace of the stage.
    pub native_rx: CommittedStructured,
    /// What binds it on the nested curve.
    pub nested_rx: NestedCommitted,
}

/// The bundle of the round that holds the error terms of the first layer.
#[derive(Clone, Debug)]
pub struct ErrorMProof {
    /// The registry polynomial at `w` and `y`.
    pub registry_wy: CommittedStructured,
    /// The committed trace of the stage.
    pub native_rx: CommittedStructured,
    /// What binds the two on the nested curve.
    pub nested_rx: NestedCommitted,
}

/// The bundle of the round that folds the claims.
#[derive(Clone, Debug)]
pub struct ABProof {
    /// The folded polynomial `A`.
    pub a: CommittedStructured,
    /// The folded polynomial `B`.
    pub b: CommittedStructured,
    /// The claimed value `revdot(A, B)`.
    pub c: Scalar,
    /// What binds `A` and `B` on the nested curve.
    pub nested_rx: NestedCommitted,
}

/// The bundle of the round that answers the queries at `x`.
#[derive(Clone, Debug)]
pub struct QueryProof {
    /// The registry polynomial at `x` and `y`.
    pub registry_xy: CommittedUnstructured,
    /// The committed trace of the stage.
    pub native_rx: CommittedStructured,
    /// What binds the two on the nested curve.
    pub nested_rx: NestedCommitted,
}

/// The bundle of the round that combines the quotients.
#[derive(Clone, Debug)]
pub struct FProof {
    /// The combined quotient polynomial.
    pub poly: CommittedUnstructured,
    /// What binds it on the nested curve.
    pub nested_rx: NestedCommitted,
}

/// The bundle of the round that evaluates every polynomial at `u`.
#[derive(Clone, Debug)]
pub struct EvalProof {
    /// The committed trace of the stage.
    pub native_rx: CommittedStructured,
    /// What binds it on the nested curve.
    pub nested_rx: NestedCommitted,
}

/// The bundle of the last round: the accumulated polynomial and its claimed
/// value.
#[derive(Clone, Debug)]
pub struct PProof {
    /// The accumulated polynomial `p`, committed with the accumulated
    /// blinding factor.
    pub poly: CommittedUnstructured,
    /// The claimed value `p(u)`.
    pub v: Scalar,
    /// The trace that holds the endoscalar.
    pub endoscalar_rx: NestedPolynomial,
    /// The trace that holds the accumulated commitments.
    pub points_rx: NestedPolynomial,
    /// The traces of the steps that recompute the commitment.
    pub step_rxs: Vec<NestedPolynomial>,
}

/// The challenges that the transcript gave during a fusion, in the order in
/// which it gave them.
#[derive(Clone, Copy, Debug)]
pub struct Challenges {
    /// After the preamble.
    pub w: Scalar,
    /// After the restricted registry polynomials, first.
    pub y: Scalar,
    /// After the restricted registry polynomials, second.
    pub z: Scalar,
    /// After the error terms of the first layer, first.
    pub mu: Scalar,
    /// After the error terms of the first layer, second.
    pub nu: Scalar,
    /// After the error terms of the second layer, first.
    pub mu_prime: Scalar,
    /// After the error terms of the second layer, second.
    pub nu_prime: Scalar,
    /// After the folded polynomials.
    pub x: Scalar,
    /// After the queries.
    pub alpha: Scalar,
    /// After the combined quotient.
    pub u: Scalar,
    /// After the evaluations; the challenge from which the factor of the
    /// accumulation is derived.
    pub pre_beta: Scalar,
}

impl Challenges {
    /// The challenges with the given values, in the order in which the
    /// transcript gives them.
    pub fn new(
        w: &Scalar,
        y: &Scalar,
        z: &Scalar,
        mu: &Scalar,
        nu: &Scalar,
        mu_prime: &Scalar,
        nu_prime: &Scalar,
        x: &Scalar,
        alpha: &Scalar,
        u: &Scalar,
        pre_beta: &Scalar,
    ) -> (r: Challenges)
        ensures
            r.w == *w,
            r.y == *y,
            r.z == *z,
            r.mu == *mu,
            r.nu == *nu,
            r.mu_prime == *mu_prime,
            r.nu_prime == *nu_prime,
            r.x == *x,
            r.alpha == *alpha,
            r.u == *u,
            r.pre_beta == *pre_beta,
    {
        Challenges {
            w: *w,
            y: *y,
            z: *z,
            mu: *mu,
            nu: *nu,
            mu_prime: *mu_prime,
            nu_prime: *nu_prime,
            x: *x,
            alpha: *alpha,
            u: *u,
            pre_beta: *pre_beta,
        }
    }

    /// The challenges of a proof that no fusion made: all zero.
    pub fn trivial() -> (r: Challenges)
        ensures
            r.w@ == 0,
            r.y@ == 0,
            r.z@ == 0,
            r.mu@ == 0,
            r.nu@ == 0,
            r.mu_prime@ == 0,
            r.nu_prime@ == 0,
            r.x@ == 0,
            r.alpha@ == 0,
            r.u@ == 0,
            r.pre_beta@ == 0,
    {
        let zero = Scalar::zero();
        Challenges {
            w: zero,
            y: zero,
            z: zero,
            mu: zero,
            nu: zero,
            mu_prime: zero,
            nu_prime: zero,
            x: zero,
            alpha: zero,
            u: zero,
            pre_beta: zero,
        }
    }
}

/// The committed traces of the circuits that check, each for a part, that
/// the rounds were computed as they should.
#[derive(Clone, Debug)]
pub struct InternalCircuits {
    /// The first half of the transcript.
    pub hashes_1: CommittedStructured,
    /// The second half of the transcript.
    pub hashes_2: CommittedStructured,
    /// The first layer of the folding reduction.
    pub partial_collapse: CommittedStructured,
    /// The second layer of the folding reduction.
    pub full_collapse: CommittedStructured,
    /// The claimed value of the accumulated polynomial.
    pub compute_v: CommittedStructured,
}

/// A recursive proof for the correctness of some computation.
#[derive(Clone, Debug)]
pub struct Proof {
    /// The step that the application ran.
    pub application: ApplicationProof,
    /// The preamble round.
    pub preamble: PreambleProof,
    /// The round of the restricted registry polynomials.
    pub s_prime: SPrimeProof,
    /// The round of the second layer's error terms.
    pub error_n: ErrorNProof,
    /// The round of the first layer's error terms.
    pub error_m: ErrorMProof,
    /// The round of the folded polynomials.
    pub ab: ABProof,
    /// The round of the queries.
    pub query: QueryProof,
    /// The round of the combined quotient.
    pub f: FProof,
    /// The round of the evaluations.
    pub eval: EvalProof,
    /// The round of the accumulated polynomial.
    pub p: PProof,
    /// The challenges.
    pub challenges: Challenges,
    /// The circuits that check the rounds.
    pub circuits: InternalCircuits,
}

impl Proof {
    /// Whether every polynomial of the proof that is committed on the host
    /// curve has the given rank.
    pub open spec fn of_rank(&self, rank: Rank) -> bool {
        &&& self.application.rx.spec_poly().spec_rank() == rank
        &&& self.preamble.native_rx.spec_poly().spec_rank() == rank
        &&& self.s_prime.registry_wx0.spec_poly().spec_rank() == rank
        &&& self.s_prime.registry_wx1.spec_poly().spec_rank() == rank
        &&& self.error_n.native_rx.spec_poly().spec_rank() == rank
        &&& self.error_m.registry_wy.spec_poly().spec_rank() == rank
        &&& self.error_m.native_rx.spec_poly().spec_rank() == rank
        &&& self.ab.a.spec_poly().spec_rank() == rank
        &&& self.ab.b.spec_poly().spec_rank() == rank
        &&& self.query.registry_xy.spec_poly().spec_rank() == rank
        &&& self.query.native_rx.spec_poly().spec_rank() == rank
        &&& self.f.poly.spec_poly().spec_rank() == rank
        &&& self.eval.native_rx.spec_poly().spec_rank() == rank
        &&& self.p.poly.spec_poly().spec_rank() == rank
        &&& self.circuits.hashes_1.spec_poly().spec_rank() == rank
        &&& self.circuits.hashes_2.spec_poly().spec_rank() == rank
        &&& self.circuits.partial_collapse.spec_poly().spec_rank() == rank
        &&& self.circuits.full_collapse.spec_poly().spec_rank() == rank
        &&& self.circuits.compute_v.spec_poly().spec_rank() == rank
    }

    /// Whether every commitment of the proof on the host curve is the
    /// Pedersen commitment to its polynomial under its blinding factor and
    /// the given generators.
    pub open spec fn consistent(&self, generators: &Generators) -> bool {
        &&& self.application.rx.consistent(generators)
        &&& self.preamble.native_rx.consistent(generators)
        &&& self.s_prime.registry_wx0.consistent(generators)
        &&& self.s_prime.registry_wx1.consistent(generators)
        &&& self.error_n.native_rx.consistent(generators)
        &&& self.error_m.registry_wy.consistent(generators)
        &&& self.error_m.native_rx.consistent(generators)
        &&& self.ab.a.consistent(generators)
        &&& self.ab.b.consistent(generators)
        &&& self.query.registry_xy.consistent(generators)
        &&& self.query.native_rx.consistent(generators)
        &&& self.f.poly.consistent(generators)
        &&& self.eval.native_rx.consistent(generators)
        &&& self.p.poly.consistent(generators)
        &&& self.circuits.hashes_1.consistent(generators)
        &&& self.circuits.hashes_2.consistent(generators)
        &&& self.circuits.partial_collapse.consistent(generators)
        &&& self.circuits.full_collapse.consistent(generators)
        &&& self.circuits.compute_v.consistent(generators)
    }

    /// Whether every commitment of the proof on the nested curve is the
    /// Pedersen commitment to its polynomial under its blinding factor and
    /// the given generators.
    pub open spec fn nested_consistent(&self, generators: &NestedGenerators) -> bool {
        &&& self.preamble.nested_rx.consistent(generators)
        &&& self.s_prime.nested_s_prime_rx.consistent(generators)
        &&& self.error_n.nested_rx.consistent(generators)
        &&& self.error_m.nested_rx.consistent(generators)
        &&& self.ab.nested_rx.consistent(generators)
        &&& self.query.nested_rx.consistent(generators)
        &&& self.f.nested_rx.consistent(generators)
        &&& self.eval.nested_rx.consistent(generators)
    }

    /// Whether the two claimed values are the values of what they are
    /// claimed of: `c` is the reversed dot product of the folded
    /// polynomials, and `v` is the value of the accumulated polynomial at
    /// the challenge `u`.
    pub open spec fn claims_hold(&self) -> bool {
        &&& self.ab.c@ == revdot_spec(self.ab.a.spec_poly()@, self.ab.b.spec_poly()@)
        &&& self.p.v@ == eval_spec(self.p.poly.spec_poly()@, self.challenges.u@)
    }

    /// Augments the proof with the data that its header stands for.
    pub fn carry<D>(self, data: D) -> (r: Pcd<D>)
        ensures
            r.proof == self,
            r.data == data,
    {
        Pcd { proof: self, data }
    }
}

/// Proof-carrying data: a proof together with the data whose correctness it
/// shows.
#[derive(Clone, Debug)]
pub struct Pcd<D> {
    /// The proof.
    pub proof: Proof,
    /// The data.
    pub data: D,
}

/// Whether the committed polynomial is the zero polynomial of the rank,
/// committed to under the blinding factor one.
pub open spec fn trivial_structured(
    cp: &CommittedStructured,
    rank: Rank,
    generators: &Generators,
) -> bool {
    &&& cp.spec_poly().spec_rank() == rank
    &&& cp.spec_poly()@ == Seq::new(rank.spec_num_coeffs(), |k: int| 0nat)
    &&& cp.spec_blind() == 1
    &&& cp.consistent(generators)
}

/// Whether the committed polynomial is the zero polynomial of the rank,
/// committed to under the blinding factor one.
pub open spec fn trivial_unstructured(
    cp: &CommittedUnstructured,
    rank: Rank,
    generators: &Generators,
) -> bool {
    &&& cp.spec_poly().spec_rank() == rank
    &&& cp.spec_poly()@ == Seq::new(rank.spec_num_coeffs(), |k: int| 0nat)
    &&& cp.spec_blind() == 1
    &&& cp.consistent(generators)
}

/// Whether the two hold the same polynomial, blinding factor and
/// commitment.
pub open spec fn same_nested(a: &NestedCommitted, b: &NestedCommitted) -> bool {
    &&& a.poly.coeffs@ == b.poly.coeffs@
    &&& a.blind == b.blind
    &&& a.commitment == b.commitment
}

/// Whether the triple is the zero polynomial of the nested field with as
/// many coefficients as the rank has, committed to under the blinding
/// factor one.
pub open spec fn trivial_nested(
    t: &NestedCommitted,
    rank: Rank,
    nested_generators: &NestedGenerators,
) -> bool {
    &&& t.poly@ == Seq::new(rank.spec_num_coeffs(), |k: int| 0nat)
    &&& t.blind@ == 1
    &&& t.consistent(nested_generators)
}

/// Whether the polynomial is the zero polynomial of the nested field with
/// as many coefficients as the rank has.
pub open spec fn trivial_trace(poly: &NestedPolynomial, rank: Rank) -> bool {
    poly@ == Seq::new(rank.spec_num_coeffs(), |k: int| 0nat)
}

/// Whether `p` is the proof from which every chain of fusions starts:
/// every polynomial is zero, every blinding factor is one, every
/// commitment opens under the generators of its curve, every challenge
/// and both claimed values are zero, and both headers are zero.
pub open spec fn is_trivial(
    p: &Proof,
    rank: Rank,
    header_size: usize,
    num_steps: usize,
    generators: &Generators,
    nested_generators: &NestedGenerators,
) -> bool {
    &&& p.application.circuit_id.index == 0
    &&& values(p.application.left_header@) == Seq::new(
        header_size as nat,
        |i: int| 0nat,
    )
    &&& values(p.application.right_header@) == Seq::new(
        header_size as nat,
        |i: int| 0nat,
    )
    &&& trivial_structured(&p.application.rx, rank, generators)
    &&& trivial_structured(&p.preamble.native_rx, rank, generators)
    &&& trivial_unstructured(&p.s_prime.registry_wx0, rank, generators)
    &&& trivial_unstructured(&p.s_prime.registry_wx1, rank, generators)
    &&& trivial_structured(&p.error_n.native_rx, rank, generators)
    &&& trivial_structured(&p.error_m.registry_wy, rank, generators)
    &&& trivial_structured(&p.error_m.native_rx, rank, generators)
    &&& trivial_structured(&p.ab.a, rank, generators)
    &&& trivial_structured(&p.ab.b, rank, generators)
    &&& trivial_unstructured(&p.query.registry_xy, rank, generators)
    &&& trivial_structured(&p.query.native_rx, rank, generators)
    &&& trivial_unstructured(&p.f.poly, rank, generators)
    &&& trivial_structured(&p.eval.native_rx, rank, generators)
    &&& trivial_unstructured(&p.p.poly, rank, generators)
    &&& trivial_structured(&p.circuits.hashes_1, rank, generators)
    &&& trivial_structured(&p.circuits.hashes_2, rank, generators)
    &&& trivial_structured(&p.circuits.partial_collapse, rank, generators)
    &&& trivial_structured(&p.circuits.full_collapse, rank, generators)
    &&& trivial_structured(&p.circuits.compute_v, rank, generators)
    &&& p.of_rank(rank)
    &&& p.consistent(generators)
    &&& p.claims_hold()
    &&& trivial_nested(&p.preamble.nested_rx, rank, nested_generators)
    &&& trivial_nested(&p.s_prime.nested_s_prime_rx, rank, nested_generators)
    &&& trivial_nested(&p.error_n.nested_rx, rank, nested_generators)
    &&& trivial_nested(&p.error_m.nested_rx, rank, nested_generators)
    &&& trivial_nested(&p.ab.nested_rx, rank, nested_generators)
    &&& trivial_nested(&p.query.nested_rx, rank, nested_generators)
    &&& trivial_nested(&p.f.nested_rx, rank, nested_generators)
    &&& trivial_nested(&p.eval.nested_rx, rank, nested_generators)
    &&& p.nested_consistent(nested_generators)
    &&& p.ab.c@ == 0
    &&& p.p.v@ == 0
    &&& trivial_trace(&p.p.endoscalar_rx, rank)
    &&& trivial_trace(&p.p.points_rx, rank)
    &&& p.p.step_rxs@.len() == num_steps
    &&& forall|i: int|
        0 <= i < num_steps ==> trivial_trace(#[trigger] &p.p.step_rxs@[i], rank)
    &&& p.challenges.w@ == 0
    &&& p.challenges.y@ == 0
    &&& p.challenges.z@ == 0
    &&& p.challenges.mu@ == 0
    &&& p.challenges.nu@ == 0
    &&& p.challenges.mu_prime@ == 0
    &&& p.challenges.nu_prime@ == 0
    &&& p.challenges.x@ == 0
    &&& p.challenges.alpha@ == 0
    &&& p.challenges.u@ == 0
    &&& p.challenges.pre_beta@ == 0
}

/// The proof from which every chain of fusions starts: every polynomial is
/// zero, on the host curve and on the nested curve; every blinding factor
/// is one; every commitment is the commitment to the zero polynomial under
/// the blinding factor one and the generators of its curve; every
/// challenge and both claimed values are zero, and both headers are zero.
/// Nested generators too few for the coefficients of the rank are refused
/// with the number of those coefficients.
pub fn trivial(
    rank: Rank,
    header_size: usize,
    num_steps: usize,
    generators: &Generators,
    nested_generators: &NestedGenerators,
) -> (r: Result<Proof, Error>)
    requires
        rank.spec_num_coeffs() <= generators.g().len(),
    ensures
        match r {
            Ok(p) => {
                &&& rank.spec_num_coeffs() <= nested_generators.g().len()
                &&& is_trivial(&p, rank, header_size, num_steps, generators, nested_generators)
            },
            Err(e) => {
                &&& rank.spec_num_coeffs() > nested_generators.g().len()
                &&& e == Error::CoefficientBoundExceeded(rank.spec_num_coeffs() as usize)
            },
        },
{
    let size = rank.num_coeffs();
    let nested_zero = NestedPolynomial::zero(size);
    let nested = match nested_zero.commit_with_blind(nested_generators, NestedScalar::one()) {
        Some(made) => made,
        None => {
            return Err(Error::CoefficientBoundExceeded(size));
        },
    };
    let nested = &nested;
    let nested_zero = &nested_zero;
    proof {
        assert(nested.poly@ =~= nested_zero@);
    }
    let host_blind = Scalar::one();
    let zero_structured = structured::Polynomial::new(rank);
    let zero_unstructured = unstructured::Polynomial::new(rank);
    let cp_host = zero_structured.commit_with_blind(generators, host_blind);
    let cp_unstructured = zero_unstructured.commit_with_blind(generators, host_blind);
    let left_header = zeros(header_size);
    let right_header = zeros(header_size);
    proof {
        assert(cp_host.spec_poly()@ =~= Seq::new(rank.spec_num_coeffs(), |k: int| 0nat));
        assert(cp_unstructured.spec_poly()@ =~= Seq::new(rank.spec_num_coeffs(), |k: int| 0nat));
        assert(values(left_header@) =~= Seq::new(header_size as nat, |i: int| 0nat));
        assert(values(right_header@) =~= Seq::new(header_size as nat, |i: int| 0nat));
        let len = rank.spec_num_coeffs();
        assert(cp_host.spec_poly()@ == zero_poly(len));
        lemma_revdot_zero(cp_host.spec_poly()@, len, len);
        lemma_eval_of_zeros(cp_unstructured.spec_poly()@, 0);
    }
    let mut step_rxs: Vec<NestedPolynomial> = Vec::new();
    let mut i: usize = 0;
    while i < num_steps
        invariant
            i <= num_steps,
            step_rxs@.len() == i,
            forall|k: int| 0 <= k < i ==> (#[trigger] step_rxs@[k]).coeffs@ == nested_zero.coeffs@,
        decreases num_steps - i,
    {
        step_rxs.push(nested_zero.duplicate());
        i += 1;
    }
    let proof = Proof {
        application: ApplicationProof {
            circuit_id: CircuitIndex::new(0),
            left_header,
            right_header,
            rx: cp_host.duplicate(),
        },
        preamble: PreambleProof { native_rx: cp_host.duplicate(), nested_rx: nested.duplicate() },
        s_prime: SPrimeProof {
            registry_wx0: cp_unstructured.duplicate(),
            registry_wx1: cp_unstructured.duplicate(),
            nested_s_prime_rx: nested.duplicate(),
        },
        error_n: ErrorNProof { native_rx: cp_host.duplicate(), nested_rx: nested.duplicate() },
        error_m: ErrorMProof {
            registry_wy: cp_host.duplicate(),
            native_rx: cp_host.duplicate(),
            nested_rx: nested.duplicate(),
        },
        ab: ABProof {
            a: cp_host.duplicate(),
            b: cp_host.duplicate(),
            c: Scalar::zero(),
            nested_rx: nested.duplicate(),
        },
        query: QueryProof {
            registry_xy: cp_unstructured.duplicate(),
            native_rx: cp_host.duplicate(),
            nested_rx: nested.duplicate(),
        },
        f: FProof { poly: cp_unstructured.duplicate(), nested_rx: nested.duplicate() },
        eval: EvalProof { native_rx: cp_host.duplicate(), nested_rx: nested.duplicate() },
        p: PProof {
            poly: cp_unstructured,
            v: Scalar::zero(),
            endoscalar_rx: nested_zero.duplicate(),
            points_rx: nested_zero.duplicate(),
            step_rxs,
        },
        challenges: Challenges::trivial(),
        circuits: InternalCircuits {
            hashes_1: cp_host.duplicate(),
            hashes_2: cp_host.duplicate(),
            partial_collapse: cp_host.duplicate(),
            full_collapse: cp_host.duplicate(),
            compute_v: cp_host,
        },
    };
    Ok(proof)
}

} // verus!
