//! The rounds of a fusion that commit to a stage on the host curve.
//!
//! Each function takes what feeds its round, makes what the round commits
//! to on the host curve, and names the commitments that the round's stage
//! on the nested curve binds, in the order in which it binds them. The
//! stages are laid out after the preamble: the stage of the first layer's
//! error terms and the stage of the queries follow the preamble, the
//! stage of the second layer's error terms follows that of the first, and
//! the stage of the evaluations follows that of the queries.

use crate::circuits::stages::error_m;
use crate::circuits::stages::error_m::rows_upto;
use crate::circuits::stages::error_n;
use crate::circuits::stages::eval;
use crate::circuits::stages::eval::child_polynomials;
use crate::circuits::stages::eval::current_polynomials;
use crate::circuits::stages::eval::evaluations;
use crate::circuits::stages::query;
use crate::curve::points;
use crate::curve::Point;
use crate::error::Error;
use crate::field::Scalar;
use crate::fold_revdot::all_of_rank;
use crate::fold_revdot::error_terms_len;
use crate::fold_revdot::Parameters;
use crate::fuse::ab::Folded;
use crate::fuse::errors::shaped;
use crate::fuse::errors::FirstLayer;
use crate::fuse::errors::SecondLayer;
use crate::fuse::Application;
use crate::nested::NestedPoint;
use crate::pcd::ABProof;
use crate::pcd::CommittedStructured;
use crate::pcd::CommittedUnstructured;
use crate::pcd::ErrorMProof;
use crate::pcd::Proof;
use crate::pcd::QueryProof;
use crate::pcd::SPrimeProof;
use crate::polynomials::committed::Committable;
use crate::polynomials::staging::rx_spec;
use crate::polynomials::staging::StagingCircuit;
use crate::polynomials::structured;
use crate::polynomials::unstructured;
use crate::polynomials::values;
use crate::polynomials::Rank;
use rand::rngs::StdRng;
use vstd::prelude::*;

verus! {

/// Whether a stage of `gates` gates fits the rank after gate 0 and `before`
/// further gates.
pub open spec fn stage_fits(before: nat, gates: nat, rank: Rank) -> bool {
    before + gates + 1 <= rank.spec_n()
}

/// Whether `p` is the trace polynomial of a stage of `gates` gates that
/// holds `stage_values` after gate 0 and `before` further gates.
pub open spec fn stage_trace(
    stage_values: Seq<nat>,
    before: nat,
    gates: nat,
    rank: Rank,
    p: &structured::Polynomial,
) -> bool {
    &&& p.spec_rank() == rank
    &&& p@ == rx_spec(stage_values, before, gates, rank.spec_n())
}

/// The number of gates of the stage of the first layer's error terms.
pub open spec fn error_m_gates(params: Parameters) -> nat {
    ((3 + params.spec_n() * error_terms_len(params.spec_m()) + 1) / 2) as nat
}

/// The number of gates of the stage of the second layer's error terms,
/// where the copied state of the transcript has `state` elements.
pub open spec fn error_n_gates(params: Parameters, state: nat) -> nat {
    ((error_terms_len(params.spec_n()) + params.spec_n() + state + 1) / 2) as nat
}

/// The number of gates before the stages that follow the preamble.
pub open spec fn after_preamble(preamble: &StagingCircuit) -> nat {
    preamble.spec_skip() + preamble.spec_size()
}

/// A committed stage trace and the commitments that the nested stage of
/// its round binds, in order.
pub struct StageRound {
    /// The committed trace of the stage.
    pub native_rx: CommittedStructured,
    /// The commitments to bind.
    pub points: Vec<Point>,
}

/// What the round of the restricted registry polynomials makes.
pub struct SPrimeRound {
    /// The registry polynomial at `w` and the left proof's `x`.
    pub registry_wx0: CommittedUnstructured,
    /// The registry polynomial at `w` and the right proof's `x`.
    pub registry_wx1: CommittedUnstructured,
    /// The commitments to bind.
    pub points: Vec<Point>,
}

/// What the round of the first layer's error terms makes.
pub struct ErrorMRound {
    /// The committed registry polynomial and the error terms.
    pub layer: FirstLayer,
    /// The committed trace of the stage.
    pub native_rx: CommittedStructured,
    /// The commitments to bind.
    pub points: Vec<Point>,
}

/// What the round of the second layer's error terms makes.
pub struct ErrorNRound {
    /// The folded groups, the error terms between them and the values
    /// that the groups collapsed to.
    pub layer: SecondLayer,
    /// The committed trace of the stage.
    pub native_rx: CommittedStructured,
    /// The commitments to bind.
    pub points: Vec<Point>,
}

/// What the round of the folded polynomials makes.
pub struct ABRound {
    /// The committed folds and their reversed dot product.
    pub folded: Folded,
    /// The commitments to bind.
    pub points: Vec<Point>,
}

/// A committed polynomial of the registry or of the quotient, and the
/// commitment to bind.
pub struct PolyRound {
    /// The committed polynomial.
    pub poly: CommittedUnstructured,
    /// The commitments to bind.
    pub points: Vec<Point>,
}

impl Application {
    /// The preamble round: commits to the trace of the preamble stage;
    /// the nested stage binds that commitment.
    pub fn preamble_round(&self, rng: &mut StdRng, rx: &structured::Polynomial) -> (r: StageRound)
        requires
            rx.spec_rank() == self.spec_rank(),
        ensures
            r.native_rx.spec_poly()@ == rx@,
            r.native_rx.spec_poly().spec_rank() == rx.spec_rank(),
            r.native_rx.consistent(self.spec_generators()),
            points(r.points@) == seq![r.native_rx.spec_commitment()],
    {
        let native_rx = self.compute_preamble(rng, rx);
        let bound = vec![native_rx.commitment()];
        assert(points(bound@) =~= seq![native_rx.spec_commitment()]);
        StageRound { native_rx, points: bound }
    }

    /// The round of the restricted registry polynomials: commits to both;
    /// the nested stage binds the two commitments, the left proof's
    /// first.
    pub fn s_prime_round(
        &self,
        rng: &mut StdRng,
        registry_wx0: &unstructured::Polynomial,
        registry_wx1: &unstructured::Polynomial,
    ) -> (r: SPrimeRound)
        requires
            registry_wx0.spec_rank() == self.spec_rank(),
            registry_wx1.spec_rank() == self.spec_rank(),
        ensures
            r.registry_wx0.spec_poly()@ == registry_wx0@,
            r.registry_wx0.spec_poly().spec_rank() == self.spec_rank(),
            r.registry_wx0.consistent(self.spec_generators()),
            r.registry_wx1.spec_poly()@ == registry_wx1@,
            r.registry_wx1.spec_poly().spec_rank() == self.spec_rank(),
            r.registry_wx1.consistent(self.spec_generators()),
            points(r.points@) == seq![
                r.registry_wx0.spec_commitment(),
                r.registry_wx1.spec_commitment(),
            ],
    {
        let (registry_wx0, registry_wx1) = self.compute_s_prime(rng, registry_wx0, registry_wx1);
        let bound = vec![registry_wx0.commitment(), registry_wx1.commitment()];
        assert(points(bound@) =~= seq![
            registry_wx0.spec_commitment(),
            registry_wx1.spec_commitment(),
        ]);
        SPrimeRound { registry_wx0, registry_wx1, points: bound }
    }

    /// The round of the first layer's error terms: commits to the
    /// registry polynomial at `w` and `y`, computes the error terms of the
    /// claims, and commits to the stage that holds `z`, the nested
    /// commitment `bound` of the round before and the error terms, laid
    /// out after the preamble. The nested stage binds the commitment of
    /// the stage and then that of the registry polynomial. A stage that
    /// does not fit the rank is refused with the bound of the rank, and
    /// is not committed to.
    pub fn error_m_round(
        &self,
        rng: &mut StdRng,
        z: &Scalar,
        bound: &NestedPoint,
        preamble: &StagingCircuit,
        registry_wy: &structured::Polynomial,
        a: &Vec<structured::Polynomial>,
        b: &Vec<structured::Polynomial>,
    ) -> (r: Result<ErrorMRound, Error>)
        requires
            registry_wy.spec_rank() == self.spec_rank(),
            a@.len() == self.spec_params().spec_n() * self.spec_params().spec_m(),
            b@.len() == self.spec_params().spec_n() * self.spec_params().spec_m(),
            all_of_rank(a@, self.spec_rank()),
            all_of_rank(b@, self.spec_rank()),
        ensures
            match r {
                Ok(out) => {
                    &&& self.first_layer(registry_wy, a, b, &out.layer)
                    &&& stage_fits(
                        after_preamble(preamble),
                        error_m_gates(self.spec_params()),
                        self.spec_rank(),
                    )
                    &&& stage_trace(
                        seq![z@, bound.x@, bound.y@] + rows_upto(
                            out.layer.error_terms@,
                            out.layer.error_terms@.len(),
                        ),
                        after_preamble(preamble),
                        error_m_gates(self.spec_params()),
                        self.spec_rank(),
                        &out.native_rx.spec_poly(),
                    )
                    &&& out.native_rx.consistent(self.spec_generators())
                    &&& points(out.points@) == seq![
                        out.native_rx.spec_commitment(),
                        out.layer.registry_wy.spec_commitment(),
                    ]
                },
                Err(e) => {
                    &&& !stage_fits(
                        after_preamble(preamble),
                        error_m_gates(self.spec_params()),
                        self.spec_rank(),
                    )
                    &&& e == Error::MultiplicationBoundExceeded(self.spec_rank().spec_n() as usize)
                },
            },
    {
        let layer = self.compute_errors_m(rng, registry_wy, a, b);
        let witness = error_m::Witness {
            z: *z,
            nested_s_doubleprime_commitment: *bound,
            error_terms: copy_rows(&layer.error_terms),
        };
        proof {
            lemma_same_rows(witness.error_terms@, layer.error_terms@, layer.error_terms@.len());
        }
        let rx = match error_m::Stage::rx(&witness, self.params(), preamble, self.rank()) {
            Ok(rx) => rx,
            Err(e) => {
                return Err(e);
            },
        };
        let native_rx = rx.commit(self.generators(), rng);
        let bound_points = vec![native_rx.commitment(), layer.registry_wy.commitment()];
        assert(points(bound_points@) =~= seq![
            native_rx.spec_commitment(),
            layer.registry_wy.spec_commitment(),
        ]);
        Ok(ErrorMRound { layer, native_rx, points: bound_points })
    }

    /// The round of the second layer's error terms: folds the groups,
    /// collapses each, computes the error terms between the folds, and
    /// commits to the stage that holds them, laid out after the stage of
    /// the first layer. The nested stage binds the commitment of the
    /// stage. Error terms and claimed values of another shape, a
    /// challenge `mu` that is zero, and a stage that does not fit the rank
    /// are refused, in this order, and nothing is committed to.
    pub fn error_n_round(
        &self,
        rng: &mut StdRng,
        preamble: &StagingCircuit,
        a: &Vec<structured::Polynomial>,
        b: &Vec<structured::Polynomial>,
        error_terms: &Vec<Vec<Scalar>>,
        ky_values: &Vec<Vec<Scalar>>,
        mu: &Scalar,
        nu: &Scalar,
        sponge_state: Vec<Scalar>,
    ) -> (r: Result<ErrorNRound, Error>)
        requires
            a@.len() == self.spec_params().spec_n() * self.spec_params().spec_m(),
            b@.len() == self.spec_params().spec_n() * self.spec_params().spec_m(),
            all_of_rank(a@, self.spec_rank()),
            all_of_rank(b@, self.spec_rank()),
        ensures
            match r {
                Ok(out) => {
                    &&& self.second_layer(
                        a,
                        b,
                        error_terms,
                        ky_values,
                        mu,
                        nu,
                        sponge_state@,
                        &out.layer,
                    )
                    &&& stage_fits(
                        after_preamble(preamble) + error_m_gates(self.spec_params()),
                        error_n_gates(self.spec_params(), sponge_state@.len()),
                        self.spec_rank(),
                    )
                    &&& stage_trace(
                        out.layer.witness@,
                        after_preamble(preamble) + error_m_gates(self.spec_params()),
                        error_n_gates(self.spec_params(), sponge_state@.len()),
                        self.spec_rank(),
                        &out.native_rx.spec_poly(),
                    )
                    &&& out.native_rx.consistent(self.spec_generators())
                    &&& points(out.points@) == seq![out.native_rx.spec_commitment()]
                },
                Err(e) => if !shaped(error_terms@, ky_values@, self.spec_params()) {
                    e == Error::LengthMismatch
                } else if mu@ == 0 {
                    e == Error::DomainPointInvalid
                } else {
                    &&& !stage_fits(
                        after_preamble(preamble) + error_m_gates(self.spec_params()),
                        error_n_gates(self.spec_params(), sponge_state@.len()),
                        self.spec_rank(),
                    )
                    &&& e == Error::MultiplicationBoundExceeded(self.spec_rank().spec_n() as usize)
                },
            },
    {
        let ghost state = sponge_state@;
        let made = self.compute_errors_n(a, b, error_terms, ky_values, mu, nu, sponge_state);
        let layer = match made {
            Ok(layer) => layer,
            Err(e) => {
                return Err(e);
            },
        };
        let n = self.rank().n();
        let params = self.params();
        proof {
            assert(layer.witness@.len() == error_terms_len(params.spec_n()) + params.spec_n()
                + state.len());
        }
        let parent = match StagingCircuit::after(preamble, error_m::Stage::values(params)) {
            Some(parent) => parent,
            None => {
                return Err(Error::MultiplicationBoundExceeded(n));
            },
        };
        let rx = match error_n::Stage::rx(&layer.witness, params, &parent, self.rank()) {
            Ok(rx) => rx,
            Err(e) => {
                return Err(e);
            },
        };
        let native_rx = rx.commit(self.generators(), rng);
        let bound_points = vec![native_rx.commitment()];
        assert(points(bound_points@) =~= seq![native_rx.spec_commitment()]);
        Ok(ErrorNRound { layer, native_rx, points: bound_points })
    }

    /// The round of the folded polynomials: folds, computes `c` and
    /// commits to both folds; the nested stage binds the commitment of
    /// `A` and then that of `B`.
    pub fn ab_round(
        &self,
        rng: &mut StdRng,
        a: &Vec<structured::Polynomial>,
        b: &Vec<structured::Polynomial>,
        mu_prime: &Scalar,
        nu_prime: &Scalar,
    ) -> (r: Result<ABRound, Error>)
        requires
            a@.len() == self.spec_params().spec_n(),
            b@.len() == self.spec_params().spec_n(),
            all_of_rank(a@, self.spec_rank()),
            all_of_rank(b@, self.spec_rank()),
        ensures
            match r {
                Ok(out) => {
                    &&& self.folded(a, b, mu_prime, nu_prime, &out.folded)
                    &&& points(out.points@) == seq![
                        out.folded.a.spec_commitment(),
                        out.folded.b.spec_commitment(),
                    ]
                },
                Err(e) => mu_prime@ == 0 && e == Error::DomainPointInvalid,
            },
    {
        let folded = match self.compute_ab(rng, a, b, mu_prime, nu_prime) {
            Ok(folded) => folded,
            Err(e) => {
                return Err(e);
            },
        };
        let bound_points = vec![folded.a.commitment(), folded.b.commitment()];
        assert(points(bound_points@) =~= seq![
            folded.a.spec_commitment(),
            folded.b.spec_commitment(),
        ]);
        Ok(ABRound { folded, points: bound_points })
    }

    /// Commits to a polynomial of the registry or to the combined
    /// quotient; the nested stage binds that commitment.
    pub fn poly_round(&self, rng: &mut StdRng, poly: &unstructured::Polynomial) -> (r: PolyRound)
        requires
            poly.spec_rank() == self.spec_rank(),
        ensures
            r.poly.spec_poly()@ == poly@,
            r.poly.spec_poly().spec_rank() == self.spec_rank(),
            r.poly.consistent(self.spec_generators()),
            points(r.points@) == seq![r.poly.spec_commitment()],
    {
        let _ = poly.rank();
        let committed = poly.commit(self.generators(), rng);
        let bound_points = vec![committed.commitment()];
        assert(points(bound_points@) =~= seq![committed.spec_commitment()]);
        PolyRound { poly: committed, points: bound_points }
    }

    /// The round of the queries: commits to the stage that holds `x`, the
    /// nested commitment `bound` and the five answers, laid out after the
    /// preamble. The nested stage binds the commitment of the stage and
    /// then that of the registry polynomial at `x` and `y`. Another
    /// number of answers, and a stage that does not fit the rank, are
    /// refused, in this order, and nothing is committed to.
    pub fn query_round(
        &self,
        rng: &mut StdRng,
        x: &Scalar,
        bound: &NestedPoint,
        preamble: &StagingCircuit,
        registry_xy: &CommittedUnstructured,
        queries: Vec<Scalar>,
    ) -> (r: Result<StageRound, Error>)
        ensures
            match r {
                Ok(out) => {
                    &&& queries@.len() == 5
                    &&& stage_fits(after_preamble(preamble), 4, self.spec_rank())
                    &&& stage_trace(
                        seq![x@, bound.x@, bound.y@] + values(queries@),
                        after_preamble(preamble),
                        4,
                        self.spec_rank(),
                        &out.native_rx.spec_poly(),
                    )
                    &&& out.native_rx.consistent(self.spec_generators())
                    &&& points(out.points@) == seq![
                        out.native_rx.spec_commitment(),
                        registry_xy.spec_commitment(),
                    ]
                },
                Err(e) => if queries@.len() != 5 {
                    e == Error::LengthMismatch
                } else {
                    &&& !stage_fits(after_preamble(preamble), 4, self.spec_rank())
                    &&& e == Error::MultiplicationBoundExceeded(self.spec_rank().spec_n() as usize)
                },
            },
    {
        let witness = query::Witness { x: *x, nested_s_commitment: *bound, queries };
        let rx = match query::Stage::rx(&witness, preamble, self.rank()) {
            Ok(rx) => rx,
            Err(e) => {
                return Err(e);
            },
        };
        let native_rx = rx.commit(self.generators(), rng);
        let bound_points = vec![native_rx.commitment(), registry_xy.commitment()];
        assert(points(bound_points@) =~= seq![
            native_rx.spec_commitment(),
            registry_xy.spec_commitment(),
        ]);
        Ok(StageRound { native_rx, points: bound_points })
    }

    /// The round of the evaluations: commits to the stage that holds the
    /// values at `u` of the polynomials of the two proofs and of the
    /// fusion under way, in the order of the accumulation, laid out after
    /// the stage of the queries. The nested stage binds the commitment of
    /// the stage. A stage that does not fit the rank is refused, and
    /// nothing is committed to.
    pub fn eval_round(
        &self,
        rng: &mut StdRng,
        u: &Scalar,
        preamble: &StagingCircuit,
        left: &Proof,
        right: &Proof,
        s_prime: &SPrimeProof,
        error_m: &ErrorMProof,
        ab: &ABProof,
        query: &QueryProof,
    ) -> (r: Result<StageRound, Error>)
        ensures
            match r {
                Ok(out) => {
                    &&& stage_fits(after_preamble(preamble) + 4, 18, self.spec_rank())
                    &&& stage_trace(
                        evaluations(child_polynomials(left), u@) + evaluations(
                            child_polynomials(right),
                            u@,
                        ) + evaluations(current_polynomials(s_prime, error_m, ab, query), u@),
                        after_preamble(preamble) + 4,
                        18,
                        self.spec_rank(),
                        &out.native_rx.spec_poly(),
                    )
                    &&& out.native_rx.consistent(self.spec_generators())
                    &&& points(out.points@) == seq![out.native_rx.spec_commitment()]
                },
                Err(e) => {
                    &&& !stage_fits(after_preamble(preamble) + 4, 18, self.spec_rank())
                    &&& e == Error::MultiplicationBoundExceeded(self.spec_rank().spec_n() as usize)
                },
            },
    {
        let n = self.rank().n();
        let parent = match StagingCircuit::after(preamble, query::Stage::values()) {
            Some(parent) => parent,
            None => {
                return Err(Error::MultiplicationBoundExceeded(n));
            },
        };
        let witness = eval::Witness { u: *u, left, right, s_prime, error_m, ab, query };
        let rx = match eval::Stage::rx(&witness, &parent, self.rank()) {
            Ok(rx) => rx,
            Err(e) => {
                return Err(e);
            },
        };
        let native_rx = rx.commit(self.generators(), rng);
        let bound_points = vec![native_rx.commitment()];
        assert(points(bound_points@) =~= seq![native_rx.spec_commitment()]);
        Ok(StageRound { native_rx, points: bound_points })
    }
}

/// Rows with the same values hold the same values in a row.
proof fn lemma_same_rows(a: Seq<Vec<Scalar>>, b: Seq<Vec<Scalar>>, upto: nat)
    requires
        a.len() == b.len(),
        upto <= a.len(),
        forall|g: int| 0 <= g < a.len() ==> (#[trigger] a[g])@ == b[g]@,
    ensures
        rows_upto(a, upto) == rows_upto(b, upto),
    decreases upto,
{
    if upto > 0 {
        lemma_same_rows(a, b, (upto - 1) as nat);
        assert(a[upto - 1]@ == b[upto - 1]@);
    }
}

/// A copy of the rows.
fn copy_rows(rows: &Vec<Vec<Scalar>>) -> (r: Vec<Vec<Scalar>>)
    ensures
        r@.len() == rows@.len(),
        forall|g: int| 0 <= g < rows@.len() ==> (#[trigger] r@[g])@ == rows@[g]@,
{
    let mut r: Vec<Vec<Scalar>> = Vec::new();
    let mut g: usize = 0;
    while g < rows.len()
        invariant
            g <= rows@.len(),
            r@.len() == g,
            forall|h: int| 0 <= h < g ==> (#[trigger] r@[h])@ == rows@[h]@,
        decreases rows@.len() - g,
    {
        r.push(crate::polynomials::copy_dense(&rows[g]));
        g += 1;
    }
    r
}

} // verus!
