//! The check of the claimed value `v` of the accumulated polynomial.
//!
//! From the answers to the queries at `x` the check derives what the folded
//! polynomials `A` and `B` must be at `xz` and `x`; from every pair of a
//! polynomial's value at `u` and its claimed value at some other point it
//! forms a quotient and combines the quotients by powers of `alpha` into
//! `f(u)`; from `f(u)` and the values at `u` it derives, by powers of the
//! factor of the accumulation, the value `p(u)` that the proof must claim.

use crate::circuits::stages::eval;
use crate::circuits::unified::Instance;
use crate::components::horner::horner_spec;
use crate::components::horner::Horner;
use crate::error::Error;
use crate::field::fadd;
use crate::field::finv;
use crate::field::fmul;
use crate::field::fsub;
use crate::field::Scalar;
use crate::fold_revdot::fold;
use crate::fold_revdot::fold_two_layer;
use crate::fold_revdot::two_layer_spec;
use crate::fold_revdot::Parameters;
use crate::polynomials::eval_spec;
use crate::polynomials::staging::tz;
use crate::polynomials::staging::tz_spec;
use crate::polynomials::values;
use crate::polynomials::Rank;
use vstd::prelude::*;

verus! {

/// The challenges and the claimed value of one of the two proofs consumed.
#[derive(Clone, Copy, Debug)]
pub struct ChildUnified {
    /// The challenge `u` of that proof.
    pub u: Scalar,
    /// The challenge `y` of that proof.
    pub y: Scalar,
    /// The challenge `x` of that proof.
    pub x: Scalar,
    /// The claimed value `v` of that proof.
    pub v: Scalar,
}

/// What the preamble holds of one of the two proofs consumed.
#[derive(Clone, Copy, Debug)]
pub struct ChildPreamble {
    /// Its challenges and claimed value.
    pub unified: ChildUnified,
    /// The point of the domain that stands for the circuit of its step.
    pub circuit_id: Scalar,
    /// Whether it is the proof that no fusion made.
    pub trivial: bool,
}

/// What the preamble stage holds.
#[derive(Clone, Copy, Debug)]
pub struct PreambleOutput {
    /// The left proof.
    pub left: ChildPreamble,
    /// The right proof.
    pub right: ChildPreamble,
}

impl PreambleOutput {
    /// Whether neither of the two proofs consumed was made by a fusion.
    pub fn is_base_case(&self) -> (r: bool)
        ensures
            r == (self.left.trivial && self.right.trivial),
    {
        self.left.trivial && self.right.trivial
    }
}

/// The registry polynomial at `x` and `y`, evaluated at the point of the
/// domain of each circuit and stage of the fusion.
#[derive(Clone, Copy, Debug)]
pub struct FixedRegistryEvaluations {
    /// At the point of the preamble stage.
    pub preamble_stage: Scalar,
    /// At the point of the stage of the first layer's error terms.
    pub error_m_stage: Scalar,
    /// At the point of the stage of the second layer's error terms.
    pub error_n_stage: Scalar,
    /// At the point of the query stage.
    pub query_stage: Scalar,
    /// At the point of the eval stage.
    pub eval_stage: Scalar,
    /// At the point of the circuits that end in the stage of the second layer's error terms.
    pub error_n_final_staged: Scalar,
    /// At the point of the circuits that end in the eval stage.
    pub eval_final_staged: Scalar,
    /// At the point of the first transcript circuit.
    pub hashes_1_circuit: Scalar,
    /// At the point of the second transcript circuit.
    pub hashes_2_circuit: Scalar,
    /// At the point of the circuit of the first layer.
    pub partial_collapse_circuit: Scalar,
    /// At the point of the circuit of the second layer.
    pub full_collapse_circuit: Scalar,
    /// At the point of the circuit of the claimed value.
    pub compute_v_circuit: Scalar,
}

/// The points of the domain of the circuits and stages of the fusion.
#[derive(Clone, Copy, Debug)]
pub struct InternalPoints {
    /// The point of the preamble stage.
    pub preamble_stage: Scalar,
    /// The point of the stage of the first layer's error terms.
    pub error_m_stage: Scalar,
    /// The point of the stage of the second layer's error terms.
    pub error_n_stage: Scalar,
    /// The point of the query stage.
    pub query_stage: Scalar,
    /// The point of the eval stage.
    pub eval_stage: Scalar,
    /// The point of the circuits that end in the stage of the second layer's error terms.
    pub error_n_final_staged: Scalar,
    /// The point of the circuits that end in the eval stage.
    pub eval_final_staged: Scalar,
    /// The point of the first transcript circuit.
    pub hashes_1_circuit: Scalar,
    /// The point of the second transcript circuit.
    pub hashes_2_circuit: Scalar,
    /// The point of the circuit of the first layer.
    pub partial_collapse_circuit: Scalar,
    /// The point of the circuit of the second layer.
    pub full_collapse_circuit: Scalar,
    /// The point of the circuit of the claimed value.
    pub compute_v_circuit: Scalar,
}

/// The answers to the queries at `x` that concern one of the two proofs
/// consumed.
#[derive(Clone, Copy, Debug)]
pub struct ChildQueries {
    /// Its folded polynomial `A` at `x`.
    pub a_poly_at_x: Scalar,
    /// Its folded polynomial `B` at `x`.
    pub b_poly_at_x: Scalar,
    /// Its polynomial of the preamble stage at `x`.
    pub preamble_at_x: Scalar,
    /// Its polynomial of the preamble stage at `xz`.
    pub preamble_at_xz: Scalar,
    /// Its polynomial of the stage of the first layer's error terms at `x`.
    pub error_m_at_x: Scalar,
    /// Its polynomial of the stage of the first layer's error terms at `xz`.
    pub error_m_at_xz: Scalar,
    /// Its polynomial of the stage of the second layer's error terms at `x`.
    pub error_n_at_x: Scalar,
    /// Its polynomial of the stage of the second layer's error terms at `xz`.
    pub error_n_at_xz: Scalar,
    /// Its polynomial of the query stage at `x`.
    pub query_at_x: Scalar,
    /// Its polynomial of the query stage at `xz`.
    pub query_at_xz: Scalar,
    /// Its polynomial of the eval stage at `x`.
    pub eval_at_x: Scalar,
    /// Its polynomial of the eval stage at `xz`.
    pub eval_at_xz: Scalar,
    /// Its polynomial of the trace of the step at `x`.
    pub application_at_x: Scalar,
    /// Its polynomial of the trace of the step at `xz`.
    pub application_at_xz: Scalar,
    /// Its polynomial of the first transcript circuit at `x`.
    pub hashes_1_at_x: Scalar,
    /// Its polynomial of the first transcript circuit at `xz`.
    pub hashes_1_at_xz: Scalar,
    /// Its polynomial of the second transcript circuit at `x`.
    pub hashes_2_at_x: Scalar,
    /// Its polynomial of the second transcript circuit at `xz`.
    pub hashes_2_at_xz: Scalar,
    /// Its polynomial of the circuit of the first layer at `x`.
    pub partial_collapse_at_x: Scalar,
    /// Its polynomial of the circuit of the first layer at `xz`.
    pub partial_collapse_at_xz: Scalar,
    /// Its polynomial of the circuit of the second layer at `x`.
    pub full_collapse_at_x: Scalar,
    /// Its polynomial of the circuit of the second layer at `xz`.
    pub full_collapse_at_xz: Scalar,
    /// Its polynomial of the circuit of the claimed value at `x`.
    pub compute_v_at_x: Scalar,
    /// Its polynomial of the circuit of the claimed value at `xz`.
    pub compute_v_at_xz: Scalar,
    /// Its registry polynomial at the new `w`.
    pub old_registry_xy_at_new_w: Scalar,
    /// The new registry polynomial at `w` and `y`, at its `x`.
    pub new_registry_wy_at_old_x: Scalar,
    /// The new registry polynomial at `x` and `y`, at the point of its
    /// circuit.
    pub new_registry_xy_at_old_circuit_id: Scalar,
}

/// The answers to the queries at `x`.
#[derive(Clone, Copy, Debug)]
pub struct QueryOutput {
    /// The registry polynomial at the points of the fusion's own circuits.
    pub fixed_registry: FixedRegistryEvaluations,
    /// What concerns the left proof.
    pub left: ChildQueries,
    /// What concerns the right proof.
    pub right: ChildQueries,
    /// The registry polynomial at `w`, `x` and `y`.
    pub registry_wxy: Scalar,
}

/// The sum of the values.
pub open spec fn sum_of(values: Seq<nat>) -> nat
    decreases values.len(),
{
    if values.len() == 0 {
        0
    } else {
        fadd(sum_of(values.drop_last()), values.last())
    }
}

/// The sum of the values.
pub fn sum(items: &Vec<Scalar>) -> (r: Scalar)
    ensures
        r@ == sum_of(values(items@)),
{
    let ghost all = values(items@);
    let mut acc = Scalar::zero();
    let mut i: usize = 0;
    assert(all.subrange(0, 0) =~= Seq::<nat>::empty());
    while i < items.len()
        invariant
            i <= items@.len(),
            all == values(items@),
            acc@ == sum_of(all.subrange(0, i as int)),
        decreases items@.len() - i,
    {
        proof {
            let next = all.subrange(0, i + 1);
            assert(next.drop_last() =~= all.subrange(0, i as int));
            assert(next.last() == items@[i as int]@);
        }
        acc = acc.add(&items[i]);
        i += 1;
    }
    assert(all.subrange(0, all.len() as int) =~= all);
    acc
}

/// What one of the two proofs consumed contributes to the claims about `A`:
/// its own folded polynomial, the trace of its step, and for each of its
/// checking circuits the sum of the circuit's trace and the traces of the
/// stages the circuit is built on, all at `xz`.
pub open spec fn child_a_sources(child: &ChildQueries) -> Seq<nat> {
    seq![
        child.a_poly_at_x@,
        child.application_at_x@,
        sum_of(seq![child.hashes_1_at_x@, child.preamble_at_x@, child.error_n_at_x@]),
        sum_of(seq![child.hashes_2_at_x@, child.error_n_at_x@]),
        sum_of(
            seq![
                child.partial_collapse_at_x@,
                child.preamble_at_x@,
                child.error_m_at_x@,
                child.error_n_at_x@,
            ]
        ),
        sum_of(
            seq![
                child.full_collapse_at_x@,
                child.preamble_at_x@,
                child.error_m_at_x@,
                child.error_n_at_x@,
            ]
        ),
        sum_of(
            seq![child.compute_v_at_x@, child.preamble_at_x@, child.query_at_x@, child.eval_at_x@]
        ),
    ]
}

/// What one of the two proofs consumed contributes to the claims about `B`:
/// for each claim the same traces one dilation further, the value of the
/// registry polynomial at the claim's circuit, and `t(x, z)`.
pub open spec fn child_b_sources(
    child: &ChildQueries,
    fixed_registry: &FixedRegistryEvaluations,
    txz: nat,
) -> Seq<nat> {
    seq![
        child.b_poly_at_x@,
        fadd(fadd(child.application_at_xz@, child.new_registry_xy_at_old_circuit_id@), txz),
        sum_of(
            seq![
                child.hashes_1_at_xz@,
                child.preamble_at_xz@,
                child.error_n_at_xz@,
                fixed_registry.hashes_1_circuit@,
                txz,
            ]
        ),
        sum_of(
            seq![child.hashes_2_at_xz@, child.error_n_at_xz@, fixed_registry.hashes_2_circuit@, txz]
        ),
        sum_of(
            seq![
                child.partial_collapse_at_xz@,
                child.preamble_at_xz@,
                child.error_m_at_xz@,
                child.error_n_at_xz@,
                fixed_registry.partial_collapse_circuit@,
                txz,
            ]
        ),
        sum_of(
            seq![
                child.full_collapse_at_xz@,
                child.preamble_at_xz@,
                child.error_m_at_xz@,
                child.error_n_at_xz@,
                fixed_registry.full_collapse_circuit@,
                txz,
            ]
        ),
        sum_of(
            seq![
                child.compute_v_at_xz@,
                child.preamble_at_xz@,
                child.query_at_xz@,
                child.eval_at_xz@,
                fixed_registry.compute_v_circuit@,
                txz,
            ]
        ),
    ]
}

/// What the stages contribute to the claims about `A`: for each stage the
/// traces built on it, of the left proof and then of the right, folded with
/// `z`.
pub open spec fn stage_a_sources(query: &QueryOutput, z: nat) -> Seq<nat> {
    seq![
        eval_spec(
            seq![
                query.left.hashes_1_at_x@,
                query.left.hashes_2_at_x@,
                query.left.partial_collapse_at_x@,
                query.left.full_collapse_at_x@,
                query.right.hashes_1_at_x@,
                query.right.hashes_2_at_x@,
                query.right.partial_collapse_at_x@,
                query.right.full_collapse_at_x@,
            ],
            z,
        ),
        eval_spec(seq![query.left.compute_v_at_x@, query.right.compute_v_at_x@], z),
        eval_spec(seq![query.left.preamble_at_x@, query.right.preamble_at_x@], z),
        eval_spec(seq![query.left.error_m_at_x@, query.right.error_m_at_x@], z),
        eval_spec(seq![query.left.error_n_at_x@, query.right.error_n_at_x@], z),
        eval_spec(seq![query.left.query_at_x@, query.right.query_at_x@], z),
        eval_spec(seq![query.left.eval_at_x@, query.right.eval_at_x@], z),
    ]
}

/// What the stages contribute to the claims about `B`: the registry
/// polynomial at the point of each stage.
pub open spec fn stage_b_sources(query: &QueryOutput) -> Seq<nat> {
    seq![
        query.fixed_registry.error_n_final_staged@,
        query.fixed_registry.eval_final_staged@,
        query.fixed_registry.preamble_stage@,
        query.fixed_registry.error_m_stage@,
        query.fixed_registry.error_n_stage@,
        query.fixed_registry.query_stage@,
        query.fixed_registry.eval_stage@,
    ]
}

/// The values at `xz` from which `A(xz)` is folded, in the order of the
/// claims.
pub open spec fn ax_sources(query: &QueryOutput, z: nat) -> Seq<nat> {
    child_a_sources(&query.left) + child_a_sources(&query.right) + stage_a_sources(query, z)
}

/// The values at `x` from which `B(x)` is folded, in the order of the
/// claims.
pub open spec fn bx_sources(query: &QueryOutput, txz: nat) -> Seq<nat> {
    child_b_sources(&query.left, &query.fixed_registry, txz) + child_b_sources(
        &query.right,
        &query.fixed_registry,
        txz,
    ) + stage_b_sources(query)
}

/// Gathers, claim by claim, the values from which `A(xz)` and `B(x)` are
/// folded.
pub struct SourceBuilder {
    z: Scalar,
    txz: Scalar,
    ax: Vec<Scalar>,
    bx: Vec<Scalar>,
}

impl SourceBuilder {
    /// The challenge `z`.
    pub closed spec fn z(&self) -> nat {
        self.z@
    }

    /// The value `t(x, z)`.
    pub closed spec fn txz(&self) -> nat {
        self.txz@
    }

    /// The values gathered for `A`.
    pub closed spec fn ax(&self) -> Seq<nat> {
        values(self.ax@)
    }

    /// The values gathered for `B`.
    pub closed spec fn bx(&self) -> Seq<nat> {
        values(self.bx@)
    }

    /// A builder that has gathered nothing.
    pub fn new(z: Scalar, txz: Scalar) -> (r: SourceBuilder)
        ensures
            r.z() == z@,
            r.txz() == txz@,
            r.ax() == Seq::<nat>::empty(),
            r.bx() == Seq::<nat>::empty(),
    {
        let r = SourceBuilder { z, txz, ax: Vec::new(), bx: Vec::new() };
        assert(r.ax() =~= Seq::<nat>::empty());
        assert(r.bx() =~= Seq::<nat>::empty());
        r
    }

    /// A claim whose two values are taken as they are.
    pub fn direct(&mut self, ax_eval: &Scalar, bx_eval: &Scalar)
        ensures
            final(self).z() == old(self).z(),
            final(self).txz() == old(self).txz(),
            final(self).ax() == old(self).ax().push(ax_eval@),
            final(self).bx() == old(self).bx().push(bx_eval@),
    {
        self.ax.push(*ax_eval);
        self.bx.push(*bx_eval);
        assert(self.ax() =~= old(self).ax().push(ax_eval@));
        assert(self.bx() =~= old(self).bx().push(bx_eval@));
    }

    /// The claim of the trace of a step.
    pub fn application(&mut self, ax_eval: &Scalar, bx_eval: &Scalar, bx_registry: &Scalar)
        ensures
            final(self).z() == old(self).z(),
            final(self).txz() == old(self).txz(),
            final(self).ax() == old(self).ax().push(ax_eval@),
            final(self).bx() == old(self).bx().push(
                fadd(fadd(bx_eval@, bx_registry@), old(self).txz()),
            ),
    {
        let b = bx_eval.add(bx_registry).add(&self.txz);
        self.ax.push(*ax_eval);
        self.bx.push(b);
        assert(self.ax() =~= old(self).ax().push(ax_eval@));
        assert(self.bx() =~= old(self).bx().push(b@));
    }

    /// The claim of a checking circuit: the sums of the circuit's trace and
    /// the traces of its stages.
    pub fn internal(&mut self, ax_evals: &Vec<Scalar>, bx_evals: &Vec<Scalar>, bx_registry: &Scalar)
        ensures
            final(self).z() == old(self).z(),
            final(self).txz() == old(self).txz(),
            final(self).ax() == old(self).ax().push(sum_of(values(ax_evals@))),
            final(self).bx() == old(self).bx().push(
                sum_of(values(bx_evals@).push(bx_registry@).push(old(self).txz())),
            ),
    {
        let a = sum(ax_evals);
        let b = sum(bx_evals).add(bx_registry).add(&self.txz);
        proof {
            let inner = values(bx_evals@).push(bx_registry@);
            let all = inner.push(self.txz@);
            assert(all.drop_last() =~= inner);
            assert(inner.drop_last() =~= values(bx_evals@));
            assert(sum_of(all) == fadd(sum_of(all.drop_last()), all.last()));
            assert(sum_of(inner) == fadd(sum_of(inner.drop_last()), inner.last()));
            assert(b@ == sum_of(all));
        }
        self.ax.push(a);
        self.bx.push(b);
        assert(self.ax() =~= old(self).ax().push(a@));
        assert(self.bx() =~= old(self).bx().push(b@));
    }

    /// The claim of a stage: the traces built on it folded with `z`,
    /// against the registry polynomial at the point of the stage.
    pub fn stage(&mut self, ax_evals: &Vec<Scalar>, bx_registry: &Scalar)
        ensures
            final(self).z() == old(self).z(),
            final(self).txz() == old(self).txz(),
            final(self).ax() == old(self).ax().push(eval_spec(values(ax_evals@), old(self).z())),
            final(self).bx() == old(self).bx().push(bx_registry@),
    {
        let a = fold(ax_evals, &self.z);
        self.ax.push(a);
        self.bx.push(*bx_registry);
        assert(self.ax() =~= old(self).ax().push(a@));
        assert(self.bx() =~= old(self).bx().push(bx_registry@));
    }

    /// The claims of one of the two proofs consumed.
    pub fn child(&mut self, fixed_registry: &FixedRegistryEvaluations, child: &ChildQueries)
        ensures
            final(self).z() == old(self).z(),
            final(self).txz() == old(self).txz(),
            final(self).ax() == old(self).ax() + child_a_sources(child),
            final(self).bx() == old(self).bx() + child_b_sources(
                child,
                fixed_registry,
                old(self).txz(),
            ),
    {
        self.direct(&child.a_poly_at_x, &child.b_poly_at_x);
        self.application(
            &child.application_at_x,
            &child.application_at_xz,
            &child.new_registry_xy_at_old_circuit_id,
        );
        let a: Vec<Scalar> = vec![child.hashes_1_at_x, child.preamble_at_x, child.error_n_at_x];
        let b: Vec<Scalar> = vec![child.hashes_1_at_xz, child.preamble_at_xz, child.error_n_at_xz];
        proof {
            assert(
                values(a@) =~= seq![child.hashes_1_at_x@, child.preamble_at_x@, child.error_n_at_x@]
            );
            assert(
                values(
                    b@
                ).push(
                    fixed_registry.hashes_1_circuit@
                ).push(
                    self.txz()
                ) =~= seq![
                    child.hashes_1_at_xz@,
                    child.preamble_at_xz@,
                    child.error_n_at_xz@,
                    fixed_registry.hashes_1_circuit@,
                    self.txz(),
                ]
            );
        }
        self.internal(&a, &b, &fixed_registry.hashes_1_circuit);
        let a: Vec<Scalar> = vec![child.hashes_2_at_x, child.error_n_at_x];
        let b: Vec<Scalar> = vec![child.hashes_2_at_xz, child.error_n_at_xz];
        proof {
            assert(values(a@) =~= seq![child.hashes_2_at_x@, child.error_n_at_x@]);
            assert(
                values(
                    b@
                ).push(
                    fixed_registry.hashes_2_circuit@
                ).push(
                    self.txz()
                ) =~= seq![
                    child.hashes_2_at_xz@,
                    child.error_n_at_xz@,
                    fixed_registry.hashes_2_circuit@,
                    self.txz(),
                ]
            );
        }
        self.internal(&a, &b, &fixed_registry.hashes_2_circuit);
        let a: Vec<Scalar> = vec![
            child.partial_collapse_at_x,
            child.preamble_at_x,
            child.error_m_at_x,
            child.error_n_at_x,
        ];
        let b: Vec<Scalar> = vec![
            child.partial_collapse_at_xz,
            child.preamble_at_xz,
            child.error_m_at_xz,
            child.error_n_at_xz,
        ];
        proof {
            assert(
                values(
                    a@
                ) =~= seq![
                    child.partial_collapse_at_x@,
                    child.preamble_at_x@,
                    child.error_m_at_x@,
                    child.error_n_at_x@,
                ]
            );
            assert(
                values(
                    b@
                ).push(
                    fixed_registry.partial_collapse_circuit@
                ).push(
                    self.txz()
                ) =~= seq![
                    child.partial_collapse_at_xz@,
                    child.preamble_at_xz@,
                    child.error_m_at_xz@,
                    child.error_n_at_xz@,
                    fixed_registry.partial_collapse_circuit@,
                    self.txz(),
                ]
            );
        }
        self.internal(&a, &b, &fixed_registry.partial_collapse_circuit);
        let a: Vec<Scalar> = vec![
            child.full_collapse_at_x,
            child.preamble_at_x,
            child.error_m_at_x,
            child.error_n_at_x,
        ];
        let b: Vec<Scalar> = vec![
            child.full_collapse_at_xz,
            child.preamble_at_xz,
            child.error_m_at_xz,
            child.error_n_at_xz,
        ];
        proof {
            assert(
                values(
                    a@
                ) =~= seq![
                    child.full_collapse_at_x@,
                    child.preamble_at_x@,
                    child.error_m_at_x@,
                    child.error_n_at_x@,
                ]
            );
            assert(
                values(
                    b@
                ).push(
                    fixed_registry.full_collapse_circuit@
                ).push(
                    self.txz()
                ) =~= seq![
                    child.full_collapse_at_xz@,
                    child.preamble_at_xz@,
                    child.error_m_at_xz@,
                    child.error_n_at_xz@,
                    fixed_registry.full_collapse_circuit@,
                    self.txz(),
                ]
            );
        }
        self.internal(&a, &b, &fixed_registry.full_collapse_circuit);
        let a: Vec<Scalar> = vec![
            child.compute_v_at_x,
            child.preamble_at_x,
            child.query_at_x,
            child.eval_at_x,
        ];
        let b: Vec<Scalar> = vec![
            child.compute_v_at_xz,
            child.preamble_at_xz,
            child.query_at_xz,
            child.eval_at_xz,
        ];
        proof {
            assert(
                values(
                    a@
                ) =~= seq![
                    child.compute_v_at_x@,
                    child.preamble_at_x@,
                    child.query_at_x@,
                    child.eval_at_x@,
                ]
            );
            assert(
                values(
                    b@
                ).push(
                    fixed_registry.compute_v_circuit@
                ).push(
                    self.txz()
                ) =~= seq![
                    child.compute_v_at_xz@,
                    child.preamble_at_xz@,
                    child.query_at_xz@,
                    child.eval_at_xz@,
                    fixed_registry.compute_v_circuit@,
                    self.txz(),
                ]
            );
        }
        self.internal(&a, &b, &fixed_registry.compute_v_circuit);
        assert(self.ax() =~= old(self).ax() + child_a_sources(child));
        assert(
            self.bx() =~= old(self).bx() + child_b_sources(child, fixed_registry, old(self).txz())
        );
    }

    /// What has been gathered: the values for `A` and the values for `B`.
    pub fn build(self) -> (r: (Vec<Scalar>, Vec<Scalar>))
        ensures
            values(r.0@) == self.ax(),
            values(r.1@) == self.bx(),
    {
        (self.ax, self.bx)
    }
}

/// The values `A(xz)` and `B(x)` that the answers to the queries imply: the
/// sources of all claims folded in two layers, those of `A` with the
/// inverses of `mu` and `mu'`, those of `B` with `mu * nu` and `mu' * nu'`.
pub fn compute_axbx(
    query: &QueryOutput,
    z: &Scalar,
    txz: &Scalar,
    mu_inv: &Scalar,
    mu_prime_inv: &Scalar,
    munu: &Scalar,
    mu_prime_nu_prime: &Scalar,
    params: Parameters,
) -> (r: (Scalar, Scalar))
    ensures
        r.0@ == two_layer_spec(
            ax_sources(query, z@),
            params.spec_n(),
            params.spec_m(),
            mu_inv@,
            mu_prime_inv@,
        ),
        r.1@ == two_layer_spec(
            bx_sources(query, txz@),
            params.spec_n(),
            params.spec_m(),
            munu@,
            mu_prime_nu_prime@,
        ),
{
    let mut builder = SourceBuilder::new(*z, *txz);
    builder.child(&query.fixed_registry, &query.left);
    builder.child(&query.fixed_registry, &query.right);
    let ghost children_a = builder.ax();
    let ghost children_b = builder.bx();
    let traces: Vec<Scalar> = vec![
        query.left.hashes_1_at_x,
        query.left.hashes_2_at_x,
        query.left.partial_collapse_at_x,
        query.left.full_collapse_at_x,
        query.right.hashes_1_at_x,
        query.right.hashes_2_at_x,
        query.right.partial_collapse_at_x,
        query.right.full_collapse_at_x,
    ];
    assert(
        values(
            traces@
        ) =~= seq![
            query.left.hashes_1_at_x@,
            query.left.hashes_2_at_x@,
            query.left.partial_collapse_at_x@,
            query.left.full_collapse_at_x@,
            query.right.hashes_1_at_x@,
            query.right.hashes_2_at_x@,
            query.right.partial_collapse_at_x@,
            query.right.full_collapse_at_x@,
        ]
    );
    builder.stage(&traces, &query.fixed_registry.error_n_final_staged);
    let traces: Vec<Scalar> = vec![query.left.compute_v_at_x, query.right.compute_v_at_x];
    assert(values(traces@) =~= seq![query.left.compute_v_at_x@, query.right.compute_v_at_x@]);
    builder.stage(&traces, &query.fixed_registry.eval_final_staged);
    let traces: Vec<Scalar> = vec![query.left.preamble_at_x, query.right.preamble_at_x];
    assert(values(traces@) =~= seq![query.left.preamble_at_x@, query.right.preamble_at_x@]);
    builder.stage(&traces, &query.fixed_registry.preamble_stage);
    let traces: Vec<Scalar> = vec![query.left.error_m_at_x, query.right.error_m_at_x];
    assert(values(traces@) =~= seq![query.left.error_m_at_x@, query.right.error_m_at_x@]);
    builder.stage(&traces, &query.fixed_registry.error_m_stage);
    let traces: Vec<Scalar> = vec![query.left.error_n_at_x, query.right.error_n_at_x];
    assert(values(traces@) =~= seq![query.left.error_n_at_x@, query.right.error_n_at_x@]);
    builder.stage(&traces, &query.fixed_registry.error_n_stage);
    let traces: Vec<Scalar> = vec![query.left.query_at_x, query.right.query_at_x];
    assert(values(traces@) =~= seq![query.left.query_at_x@, query.right.query_at_x@]);
    builder.stage(&traces, &query.fixed_registry.query_stage);
    let traces: Vec<Scalar> = vec![query.left.eval_at_x, query.right.eval_at_x];
    assert(values(traces@) =~= seq![query.left.eval_at_x@, query.right.eval_at_x@]);
    builder.stage(&traces, &query.fixed_registry.eval_stage);
    assert(builder.ax() =~= children_a + stage_a_sources(query, z@));
    assert(builder.bx() =~= children_b + stage_b_sources(query));
    assert(builder.ax() =~= ax_sources(query, z@));
    assert(builder.bx() =~= bx_sources(query, txz@));
    let (ax_sources, bx_sources) = builder.build();
    let ax = fold_two_layer(&ax_sources, mu_inv, mu_prime_inv, params);
    let bx = fold_two_layer(&bx_sources, munu, mu_prime_nu_prime, params);
    (ax, bx)
}

/// The points at which claimed values lie, in the order of the fields of
/// [`Denominators`]; the last is `xz`.
pub open spec fn denominator_points(
    w: nat,
    x: nat,
    y: nat,
    z: nat,
    preamble: &PreambleOutput,
    points: &InternalPoints,
) -> Seq<nat> {
    seq![
        preamble.left.unified.u@,
        preamble.right.unified.u@,
        w,
        preamble.left.unified.y@,
        preamble.right.unified.y@,
        y,
        preamble.left.unified.x@,
        preamble.right.unified.x@,
        x,
        points.preamble_stage@,
        points.error_m_stage@,
        points.error_n_stage@,
        points.query_stage@,
        points.eval_stage@,
        points.error_n_final_staged@,
        points.eval_final_staged@,
        points.hashes_1_circuit@,
        points.hashes_2_circuit@,
        points.partial_collapse_circuit@,
        points.full_collapse_circuit@,
        points.compute_v_circuit@,
        preamble.left.circuit_id@,
        preamble.right.circuit_id@,
        fmul(x, z),
    ]
}

/// For each point at which a claimed value lies, the inverse of `u` minus
/// that point.
pub open spec fn denominators_spec(
    u: nat,
    w: nat,
    x: nat,
    y: nat,
    z: nat,
    preamble: &PreambleOutput,
    points: &InternalPoints,
) -> Seq<nat> {
    Seq::new(24, |i: int| finv(fsub(u, denominator_points(w, x, y, z, preamble, points)[i])))
}

/// Whether `u` differs from every point at which a claimed value lies.
pub open spec fn distinct_from_points(
    u: nat,
    w: nat,
    x: nat,
    y: nat,
    z: nat,
    preamble: &PreambleOutput,
    points: &InternalPoints,
) -> bool {
    forall|i: int|
        0 <= i < 24 ==> fsub(u, #[trigger] denominator_points(w, x, y, z, preamble, points)[i])
            != 0
}

/// The denominators of all quotients: for each point at which a claimed
/// value lies, the inverse of `u` minus that point.
#[derive(Clone, Copy, Debug)]
pub struct Denominators {
    /// For the left proof's `u`.
    pub left_u: Scalar,
    /// For the right proof's `u`.
    pub right_u: Scalar,
    /// For `w`.
    pub w: Scalar,
    /// For the left proof's `y`.
    pub old_y0: Scalar,
    /// For the right proof's `y`.
    pub old_y1: Scalar,
    /// For `y`.
    pub y: Scalar,
    /// For the left proof's `x`.
    pub old_x0: Scalar,
    /// For the right proof's `x`.
    pub old_x1: Scalar,
    /// For `x`.
    pub x: Scalar,
    /// For the point of the preamble stage.
    pub internal_preamble_stage: Scalar,
    /// For the point of the stage of the first layer's error terms.
    pub internal_error_m_stage: Scalar,
    /// For the point of the stage of the second layer's error terms.
    pub internal_error_n_stage: Scalar,
    /// For the point of the query stage.
    pub internal_query_stage: Scalar,
    /// For the point of the eval stage.
    pub internal_eval_stage: Scalar,
    /// For the point of the circuits that end in the stage of the second layer's error terms.
    pub internal_error_n_final_staged: Scalar,
    /// For the point of the circuits that end in the eval stage.
    pub internal_eval_final_staged: Scalar,
    /// For the point of the first transcript circuit.
    pub internal_hashes_1_circuit: Scalar,
    /// For the point of the second transcript circuit.
    pub internal_hashes_2_circuit: Scalar,
    /// For the point of the circuit of the first layer.
    pub internal_partial_collapse_circuit: Scalar,
    /// For the point of the circuit of the second layer.
    pub internal_full_collapse_circuit: Scalar,
    /// For the point of the circuit of the claimed value.
    pub internal_compute_v_circuit: Scalar,
    /// For the point of the left proof's circuit.
    pub left_circuit_id: Scalar,
    /// For the point of the right proof's circuit.
    pub right_circuit_id: Scalar,
    /// For `xz`.
    pub xz: Scalar,
}

impl View for Denominators {
    type V = Seq<nat>;

    /// The denominators, in the order of the fields.
    open spec fn view(&self) -> Seq<nat> {
        seq![
            self.left_u@,
            self.right_u@,
            self.w@,
            self.old_y0@,
            self.old_y1@,
            self.y@,
            self.old_x0@,
            self.old_x1@,
            self.x@,
            self.internal_preamble_stage@,
            self.internal_error_m_stage@,
            self.internal_error_n_stage@,
            self.internal_query_stage@,
            self.internal_eval_stage@,
            self.internal_error_n_final_staged@,
            self.internal_eval_final_staged@,
            self.internal_hashes_1_circuit@,
            self.internal_hashes_2_circuit@,
            self.internal_partial_collapse_circuit@,
            self.internal_full_collapse_circuit@,
            self.internal_compute_v_circuit@,
            self.left_circuit_id@,
            self.right_circuit_id@,
            self.xz@,
        ]
    }
}

/// The inverse of `u - point`, which exists unless the two coincide.
pub fn denominator(u: &Scalar, point: &Scalar) -> (r: Option<Scalar>)
    ensures
        r is None <==> fsub(u@, point@) == 0,
        r matches Some(d) ==> d@ == finv(fsub(u@, point@)),
{
    u.sub(point).invert()
}

impl Denominators {
    /// The denominators for the point of evaluation `u`. Where `u`
    /// coincides with one of the points at which a claimed value lies, no
    /// quotient can be formed there, and the point of evaluation is
    /// refused.
    pub fn new(
        u: &Scalar,
        w: &Scalar,
        x: &Scalar,
        y: &Scalar,
        z: &Scalar,
        preamble: &PreambleOutput,
        points: &InternalPoints,
    ) -> (r: Result<Denominators, Error>)
        ensures
            match r {
                Ok(d) => {
                    &&& distinct_from_points(u@, w@, x@, y@, z@, preamble, points)
                    &&& d@ == denominators_spec(u@, w@, x@, y@, z@, preamble, points)
                },
                Err(e) => {
                    &&& e == Error::DomainPointInvalid
                    &&& !distinct_from_points(u@, w@, x@, y@, z@, preamble, points)
                },
            },
    {
        let ghost pts = denominator_points(w@, x@, y@, z@, preamble, points);
        let xz = x.mul(z);
        let inv_left_u = match denominator(u, &preamble.left.unified.u) {
            Some(d) => d,
            None => {
                assert(fsub(u@, pts[0]) == 0);
                return Err(Error::DomainPointInvalid);
            },
        };
        let inv_right_u = match denominator(u, &preamble.right.unified.u) {
            Some(d) => d,
            None => {
                assert(fsub(u@, pts[1]) == 0);
                return Err(Error::DomainPointInvalid);
            },
        };
        let inv_w = match denominator(u, &w) {
            Some(d) => d,
            None => {
                assert(fsub(u@, pts[2]) == 0);
                return Err(Error::DomainPointInvalid);
            },
        };
        let inv_old_y0 = match denominator(u, &preamble.left.unified.y) {
            Some(d) => d,
            None => {
                assert(fsub(u@, pts[3]) == 0);
                return Err(Error::DomainPointInvalid);
            },
        };
        let inv_old_y1 = match denominator(u, &preamble.right.unified.y) {
            Some(d) => d,
            None => {
                assert(fsub(u@, pts[4]) == 0);
                return Err(Error::DomainPointInvalid);
            },
        };
        let inv_y = match denominator(u, &y) {
            Some(d) => d,
            None => {
                assert(fsub(u@, pts[5]) == 0);
                return Err(Error::DomainPointInvalid);
            },
        };
        let inv_old_x0 = match denominator(u, &preamble.left.unified.x) {
            Some(d) => d,
            None => {
                assert(fsub(u@, pts[6]) == 0);
                return Err(Error::DomainPointInvalid);
            },
        };
        let inv_old_x1 = match denominator(u, &preamble.right.unified.x) {
            Some(d) => d,
            None => {
                assert(fsub(u@, pts[7]) == 0);
                return Err(Error::DomainPointInvalid);
            },
        };
        let inv_x = match denominator(u, &x) {
            Some(d) => d,
            None => {
                assert(fsub(u@, pts[8]) == 0);
                return Err(Error::DomainPointInvalid);
            },
        };
        let inv_internal_preamble_stage = match denominator(u, &points.preamble_stage) {
            Some(d) => d,
            None => {
                assert(fsub(u@, pts[9]) == 0);
                return Err(Error::DomainPointInvalid);
            },
        };
        let inv_internal_error_m_stage = match denominator(u, &points.error_m_stage) {
            Some(d) => d,
            None => {
                assert(fsub(u@, pts[10]) == 0);
                return Err(Error::DomainPointInvalid);
            },
        };
        let inv_internal_error_n_stage = match denominator(u, &points.error_n_stage) {
            Some(d) => d,
            None => {
                assert(fsub(u@, pts[11]) == 0);
                return Err(Error::DomainPointInvalid);
            },
        };
        let inv_internal_query_stage = match denominator(u, &points.query_stage) {
            Some(d) => d,
            None => {
                assert(fsub(u@, pts[12]) == 0);
                return Err(Error::DomainPointInvalid);
            },
        };
        let inv_internal_eval_stage = match denominator(u, &points.eval_stage) {
            Some(d) => d,
            None => {
                assert(fsub(u@, pts[13]) == 0);
                return Err(Error::DomainPointInvalid);
            },
        };
        let inv_internal_error_n_final_staged = match denominator(u, &points.error_n_final_staged) {
            Some(d) => d,
            None => {
                assert(fsub(u@, pts[14]) == 0);
                return Err(Error::DomainPointInvalid);
            },
        };
        let inv_internal_eval_final_staged = match denominator(u, &points.eval_final_staged) {
            Some(d) => d,
            None => {
                assert(fsub(u@, pts[15]) == 0);
                return Err(Error::DomainPointInvalid);
            },
        };
        let inv_internal_hashes_1_circuit = match denominator(u, &points.hashes_1_circuit) {
            Some(d) => d,
            None => {
                assert(fsub(u@, pts[16]) == 0);
                return Err(Error::DomainPointInvalid);
            },
        };
        let inv_internal_hashes_2_circuit = match denominator(u, &points.hashes_2_circuit) {
            Some(d) => d,
            None => {
                assert(fsub(u@, pts[17]) == 0);
                return Err(Error::DomainPointInvalid);
            },
        };
        let inv_internal_partial_collapse_circuit = match denominator(
            u,
            &points.partial_collapse_circuit,
        ) {
            Some(d) => d,
            None => {
                assert(fsub(u@, pts[18]) == 0);
                return Err(Error::DomainPointInvalid);
            },
        };
        let inv_internal_full_collapse_circuit = match denominator(
            u,
            &points.full_collapse_circuit,
        ) {
            Some(d) => d,
            None => {
                assert(fsub(u@, pts[19]) == 0);
                return Err(Error::DomainPointInvalid);
            },
        };
        let inv_internal_compute_v_circuit = match denominator(u, &points.compute_v_circuit) {
            Some(d) => d,
            None => {
                assert(fsub(u@, pts[20]) == 0);
                return Err(Error::DomainPointInvalid);
            },
        };
        let inv_left_circuit_id = match denominator(u, &preamble.left.circuit_id) {
            Some(d) => d,
            None => {
                assert(fsub(u@, pts[21]) == 0);
                return Err(Error::DomainPointInvalid);
            },
        };
        let inv_right_circuit_id = match denominator(u, &preamble.right.circuit_id) {
            Some(d) => d,
            None => {
                assert(fsub(u@, pts[22]) == 0);
                return Err(Error::DomainPointInvalid);
            },
        };
        let inv_xz = match denominator(u, &xz) {
            Some(d) => d,
            None => {
                assert(fsub(u@, pts[23]) == 0);
                return Err(Error::DomainPointInvalid);
            },
        };
        let d = Denominators {
            left_u: inv_left_u,
            right_u: inv_right_u,
            w: inv_w,
            old_y0: inv_old_y0,
            old_y1: inv_old_y1,
            y: inv_y,
            old_x0: inv_old_x0,
            old_x1: inv_old_x1,
            x: inv_x,
            internal_preamble_stage: inv_internal_preamble_stage,
            internal_error_m_stage: inv_internal_error_m_stage,
            internal_error_n_stage: inv_internal_error_n_stage,
            internal_query_stage: inv_internal_query_stage,
            internal_eval_stage: inv_internal_eval_stage,
            internal_error_n_final_staged: inv_internal_error_n_final_staged,
            internal_eval_final_staged: inv_internal_eval_final_staged,
            internal_hashes_1_circuit: inv_internal_hashes_1_circuit,
            internal_hashes_2_circuit: inv_internal_hashes_2_circuit,
            internal_partial_collapse_circuit: inv_internal_partial_collapse_circuit,
            internal_full_collapse_circuit: inv_internal_full_collapse_circuit,
            internal_compute_v_circuit: inv_internal_compute_v_circuit,
            left_circuit_id: inv_left_circuit_id,
            right_circuit_id: inv_right_circuit_id,
            xz: inv_xz,
        };
        let ghost target = denominators_spec(u@, w@, x@, y@, z@, preamble, points);
        assert(d@.len() == 24);
        assert forall|i: int| 0 <= i < 24 implies fsub(u@, #[trigger] pts[i]) != 0 && d@[i]
            == target[i] by {
            assert(target[i] == finv(fsub(u@, pts[i])));
            if i == 0 {
                assert(d@[0] == d.left_u@);
            }
            if i == 1 {
                assert(d@[1] == d.right_u@);
            }
            if i == 2 {
                assert(d@[2] == d.w@);
            }
            if i == 3 {
                assert(d@[3] == d.old_y0@);
            }
            if i == 4 {
                assert(d@[4] == d.old_y1@);
            }
            if i == 5 {
                assert(d@[5] == d.y@);
            }
            if i == 6 {
                assert(d@[6] == d.old_x0@);
            }
            if i == 7 {
                assert(d@[7] == d.old_x1@);
            }
            if i == 8 {
                assert(d@[8] == d.x@);
            }
            if i == 9 {
                assert(d@[9] == d.internal_preamble_stage@);
            }
            if i == 10 {
                assert(d@[10] == d.internal_error_m_stage@);
            }
            if i == 11 {
                assert(d@[11] == d.internal_error_n_stage@);
            }
            if i == 12 {
                assert(d@[12] == d.internal_query_stage@);
            }
            if i == 13 {
                assert(d@[13] == d.internal_eval_stage@);
            }
            if i == 14 {
                assert(d@[14] == d.internal_error_n_final_staged@);
            }
            if i == 15 {
                assert(d@[15] == d.internal_eval_final_staged@);
            }
            if i == 16 {
                assert(d@[16] == d.internal_hashes_1_circuit@);
            }
            if i == 17 {
                assert(d@[17] == d.internal_hashes_2_circuit@);
            }
            if i == 18 {
                assert(d@[18] == d.internal_partial_collapse_circuit@);
            }
            if i == 19 {
                assert(d@[19] == d.internal_full_collapse_circuit@);
            }
            if i == 20 {
                assert(d@[20] == d.internal_compute_v_circuit@);
            }
            if i == 21 {
                assert(d@[21] == d.left_circuit_id@);
            }
            if i == 22 {
                assert(d@[22] == d.right_circuit_id@);
            }
            if i == 23 {
                assert(d@[23] == d.xz@);
            }
        }
        assert forall|i: int| 0 <= i < 24 implies d@[i] == target[i] by {
            assert(fsub(u@, pts[i]) != 0);
        }
        assert(d@ =~= target);
        Ok(d)
    }
}

/// One query: the value at `u` of a polynomial, the value that the same
/// polynomial is claimed to have at another point, and the denominator for
/// that point.
#[derive(Clone, Copy, Debug)]
pub struct Query {
    /// The value of the polynomial at `u`.
    pub evaluation: Scalar,
    /// The claimed value at the other point.
    pub claim: Scalar,
    /// The inverse of `u` minus the other point.
    pub denominator: Scalar,
}

impl View for Query {
    type V = (nat, nat, nat);

    open spec fn view(&self) -> (nat, nat, nat) {
        (self.evaluation@, self.claim@, self.denominator@)
    }
}

/// The views of a list of queries.
pub open spec fn query_views(queries: Seq<Query>) -> Seq<(nat, nat, nat)> {
    Seq::new(queries.len(), |i: int| queries[i]@)
}

/// The queries for the accumulated polynomials of the two proofs consumed at
/// their own `u`, and the consistency of the registry polynomials with one
/// another.
pub open spec fn accumulator_and_registry_queries_spec(
    eval: &eval::Output,
    query: &QueryOutput,
    preamble: &PreambleOutput,
    d: Seq<nat>,
) -> Seq<(nat, nat, nat)> {
    seq![
        (eval.left.p_poly@, preamble.left.unified.v@, d[0]),
        (eval.right.p_poly@, preamble.right.unified.v@, d[1]),
        (eval.left.registry_xy_poly@, query.left.old_registry_xy_at_new_w@, d[2]),
        (eval.right.registry_xy_poly@, query.right.old_registry_xy_at_new_w@, d[2]),
        (eval.registry_wx0@, query.left.old_registry_xy_at_new_w@, d[3]),
        (eval.registry_wx1@, query.right.old_registry_xy_at_new_w@, d[4]),
        (eval.registry_wx0@, query.left.new_registry_wy_at_old_x@, d[5]),
        (eval.registry_wx1@, query.right.new_registry_wy_at_old_x@, d[5]),
        (eval.registry_wy@, query.left.new_registry_wy_at_old_x@, d[6]),
        (eval.registry_wy@, query.right.new_registry_wy_at_old_x@, d[7]),
        (eval.registry_wy@, query.registry_wxy@, d[8]),
        (eval.registry_xy@, query.registry_wxy@, d[2]),
    ]
}

/// The queries for the accumulated polynomials of the two proofs consumed at
/// their own `u`, and the consistency of the registry polynomials with one
/// another.
pub fn accumulator_and_registry_queries(
    eval: &eval::Output,
    query: &QueryOutput,
    preamble: &PreambleOutput,
    d: &Denominators,
) -> (r: Vec<Query>)
    ensures
        query_views(r@) == accumulator_and_registry_queries_spec(eval, query, preamble, d@),
{
    let r: Vec<Query> = vec![
        Query {
            evaluation: eval.left.p_poly,
            claim: preamble.left.unified.v,
            denominator: d.left_u,
        },
        Query {
            evaluation: eval.right.p_poly,
            claim: preamble.right.unified.v,
            denominator: d.right_u,
        },
        Query {
            evaluation: eval.left.registry_xy_poly,
            claim: query.left.old_registry_xy_at_new_w,
            denominator: d.w,
        },
        Query {
            evaluation: eval.right.registry_xy_poly,
            claim: query.right.old_registry_xy_at_new_w,
            denominator: d.w,
        },
        Query {
            evaluation: eval.registry_wx0,
            claim: query.left.old_registry_xy_at_new_w,
            denominator: d.old_y0,
        },
        Query {
            evaluation: eval.registry_wx1,
            claim: query.right.old_registry_xy_at_new_w,
            denominator: d.old_y1,
        },
        Query {
            evaluation: eval.registry_wx0,
            claim: query.left.new_registry_wy_at_old_x,
            denominator: d.y,
        },
        Query {
            evaluation: eval.registry_wx1,
            claim: query.right.new_registry_wy_at_old_x,
            denominator: d.y,
        },
        Query {
            evaluation: eval.registry_wy,
            claim: query.left.new_registry_wy_at_old_x,
            denominator: d.old_x0,
        },
        Query {
            evaluation: eval.registry_wy,
            claim: query.right.new_registry_wy_at_old_x,
            denominator: d.old_x1,
        },
        Query { evaluation: eval.registry_wy, claim: query.registry_wxy, denominator: d.x },
        Query { evaluation: eval.registry_xy, claim: query.registry_wxy, denominator: d.w },
    ];
    assert(query_views(r@) =~= accumulator_and_registry_queries_spec(eval, query, preamble, d@));
    r
}

/// The queries for the registry polynomial at `x` and `y`, at the point of each
/// circuit and stage of the fusion and at the points of the circuits of the two
/// proofs consumed.
pub open spec fn circuit_queries_spec(
    eval: &eval::Output,
    query: &QueryOutput,
    d: Seq<nat>,
) -> Seq<(nat, nat, nat)> {
    seq![
        (eval.registry_xy@, query.fixed_registry.preamble_stage@, d[9]),
        (eval.registry_xy@, query.fixed_registry.error_m_stage@, d[10]),
        (eval.registry_xy@, query.fixed_registry.error_n_stage@, d[11]),
        (eval.registry_xy@, query.fixed_registry.query_stage@, d[12]),
        (eval.registry_xy@, query.fixed_registry.eval_stage@, d[13]),
        (eval.registry_xy@, query.fixed_registry.error_n_final_staged@, d[14]),
        (eval.registry_xy@, query.fixed_registry.eval_final_staged@, d[15]),
        (eval.registry_xy@, query.fixed_registry.hashes_1_circuit@, d[16]),
        (eval.registry_xy@, query.fixed_registry.hashes_2_circuit@, d[17]),
        (eval.registry_xy@, query.fixed_registry.partial_collapse_circuit@, d[18]),
        (eval.registry_xy@, query.fixed_registry.full_collapse_circuit@, d[19]),
        (eval.registry_xy@, query.fixed_registry.compute_v_circuit@, d[20]),
        (eval.registry_xy@, query.left.new_registry_xy_at_old_circuit_id@, d[21]),
        (eval.registry_xy@, query.right.new_registry_xy_at_old_circuit_id@, d[22]),
    ]
}

/// The queries for the registry polynomial at `x` and `y`, at the point of each
/// circuit and stage of the fusion and at the points of the circuits of the two
/// proofs consumed.
pub fn circuit_queries(
    eval: &eval::Output,
    query: &QueryOutput,
    d: &Denominators,
) -> (r: Vec<Query>)
    ensures
        query_views(r@) == circuit_queries_spec(eval, query, d@),
{
    let r: Vec<Query> = vec![
        Query {
            evaluation: eval.registry_xy,
            claim: query.fixed_registry.preamble_stage,
            denominator: d.internal_preamble_stage,
        },
        Query {
            evaluation: eval.registry_xy,
            claim: query.fixed_registry.error_m_stage,
            denominator: d.internal_error_m_stage,
        },
        Query {
            evaluation: eval.registry_xy,
            claim: query.fixed_registry.error_n_stage,
            denominator: d.internal_error_n_stage,
        },
        Query {
            evaluation: eval.registry_xy,
            claim: query.fixed_registry.query_stage,
            denominator: d.internal_query_stage,
        },
        Query {
            evaluation: eval.registry_xy,
            claim: query.fixed_registry.eval_stage,
            denominator: d.internal_eval_stage,
        },
        Query {
            evaluation: eval.registry_xy,
            claim: query.fixed_registry.error_n_final_staged,
            denominator: d.internal_error_n_final_staged,
        },
        Query {
            evaluation: eval.registry_xy,
            claim: query.fixed_registry.eval_final_staged,
            denominator: d.internal_eval_final_staged,
        },
        Query {
            evaluation: eval.registry_xy,
            claim: query.fixed_registry.hashes_1_circuit,
            denominator: d.internal_hashes_1_circuit,
        },
        Query {
            evaluation: eval.registry_xy,
            claim: query.fixed_registry.hashes_2_circuit,
            denominator: d.internal_hashes_2_circuit,
        },
        Query {
            evaluation: eval.registry_xy,
            claim: query.fixed_registry.partial_collapse_circuit,
            denominator: d.internal_partial_collapse_circuit,
        },
        Query {
            evaluation: eval.registry_xy,
            claim: query.fixed_registry.full_collapse_circuit,
            denominator: d.internal_full_collapse_circuit,
        },
        Query {
            evaluation: eval.registry_xy,
            claim: query.fixed_registry.compute_v_circuit,
            denominator: d.internal_compute_v_circuit,
        },
        Query {
            evaluation: eval.registry_xy,
            claim: query.left.new_registry_xy_at_old_circuit_id,
            denominator: d.left_circuit_id,
        },
        Query {
            evaluation: eval.registry_xy,
            claim: query.right.new_registry_xy_at_old_circuit_id,
            denominator: d.right_circuit_id,
        },
    ];
    assert(query_views(r@) =~= circuit_queries_spec(eval, query, d@));
    r
}

/// The queries for the folded polynomials of the two proofs consumed at `x`.
pub open spec fn child_ab_queries_spec(
    eval: &eval::Output,
    query: &QueryOutput,
    d: Seq<nat>,
) -> Seq<(nat, nat, nat)> {
    seq![
        (eval.left.a_poly@, query.left.a_poly_at_x@, d[8]),
        (eval.left.b_poly@, query.left.b_poly_at_x@, d[8]),
        (eval.right.a_poly@, query.right.a_poly_at_x@, d[8]),
        (eval.right.b_poly@, query.right.b_poly_at_x@, d[8]),
    ]
}

/// The queries for the folded polynomials of the two proofs consumed at `x`.
pub fn child_ab_queries(
    eval: &eval::Output,
    query: &QueryOutput,
    d: &Denominators,
) -> (r: Vec<Query>)
    ensures
        query_views(r@) == child_ab_queries_spec(eval, query, d@),
{
    let r: Vec<Query> = vec![
        Query { evaluation: eval.left.a_poly, claim: query.left.a_poly_at_x, denominator: d.x },
        Query { evaluation: eval.left.b_poly, claim: query.left.b_poly_at_x, denominator: d.x },
        Query { evaluation: eval.right.a_poly, claim: query.right.a_poly_at_x, denominator: d.x },
        Query { evaluation: eval.right.b_poly, claim: query.right.b_poly_at_x, denominator: d.x },
    ];
    assert(query_views(r@) =~= child_ab_queries_spec(eval, query, d@));
    r
}

/// The queries for the traces of the left proof at `x` and at `xz`.
pub open spec fn left_trace_queries_spec(
    eval: &eval::Output,
    query: &QueryOutput,
    d: Seq<nat>,
) -> Seq<(nat, nat, nat)> {
    seq![
        (eval.left.preamble@, query.left.preamble_at_x@, d[8]),
        (eval.left.preamble@, query.left.preamble_at_xz@, d[23]),
        (eval.left.error_m@, query.left.error_m_at_x@, d[8]),
        (eval.left.error_m@, query.left.error_m_at_xz@, d[23]),
        (eval.left.error_n@, query.left.error_n_at_x@, d[8]),
        (eval.left.error_n@, query.left.error_n_at_xz@, d[23]),
        (eval.left.query@, query.left.query_at_x@, d[8]),
        (eval.left.query@, query.left.query_at_xz@, d[23]),
        (eval.left.eval@, query.left.eval_at_x@, d[8]),
        (eval.left.eval@, query.left.eval_at_xz@, d[23]),
        (eval.left.application@, query.left.application_at_x@, d[8]),
        (eval.left.application@, query.left.application_at_xz@, d[23]),
        (eval.left.hashes_1@, query.left.hashes_1_at_x@, d[8]),
        (eval.left.hashes_1@, query.left.hashes_1_at_xz@, d[23]),
        (eval.left.hashes_2@, query.left.hashes_2_at_x@, d[8]),
        (eval.left.hashes_2@, query.left.hashes_2_at_xz@, d[23]),
        (eval.left.partial_collapse@, query.left.partial_collapse_at_x@, d[8]),
        (eval.left.partial_collapse@, query.left.partial_collapse_at_xz@, d[23]),
        (eval.left.full_collapse@, query.left.full_collapse_at_x@, d[8]),
        (eval.left.full_collapse@, query.left.full_collapse_at_xz@, d[23]),
        (eval.left.compute_v@, query.left.compute_v_at_x@, d[8]),
        (eval.left.compute_v@, query.left.compute_v_at_xz@, d[23]),
    ]
}

/// The queries for the traces of the left proof at `x` and at `xz`.
pub fn left_trace_queries(
    eval: &eval::Output,
    query: &QueryOutput,
    d: &Denominators,
) -> (r: Vec<Query>)
    ensures
        query_views(r@) == left_trace_queries_spec(eval, query, d@),
{
    let r: Vec<Query> = vec![
        Query { evaluation: eval.left.preamble, claim: query.left.preamble_at_x, denominator: d.x },
        Query {
            evaluation: eval.left.preamble,
            claim: query.left.preamble_at_xz,
            denominator: d.xz,
        },
        Query { evaluation: eval.left.error_m, claim: query.left.error_m_at_x, denominator: d.x },
        Query { evaluation: eval.left.error_m, claim: query.left.error_m_at_xz, denominator: d.xz },
        Query { evaluation: eval.left.error_n, claim: query.left.error_n_at_x, denominator: d.x },
        Query { evaluation: eval.left.error_n, claim: query.left.error_n_at_xz, denominator: d.xz },
        Query { evaluation: eval.left.query, claim: query.left.query_at_x, denominator: d.x },
        Query { evaluation: eval.left.query, claim: query.left.query_at_xz, denominator: d.xz },
        Query { evaluation: eval.left.eval, claim: query.left.eval_at_x, denominator: d.x },
        Query { evaluation: eval.left.eval, claim: query.left.eval_at_xz, denominator: d.xz },
        Query {
            evaluation: eval.left.application,
            claim: query.left.application_at_x,
            denominator: d.x,
        },
        Query {
            evaluation: eval.left.application,
            claim: query.left.application_at_xz,
            denominator: d.xz,
        },
        Query { evaluation: eval.left.hashes_1, claim: query.left.hashes_1_at_x, denominator: d.x },
        Query {
            evaluation: eval.left.hashes_1,
            claim: query.left.hashes_1_at_xz,
            denominator: d.xz,
        },
        Query { evaluation: eval.left.hashes_2, claim: query.left.hashes_2_at_x, denominator: d.x },
        Query {
            evaluation: eval.left.hashes_2,
            claim: query.left.hashes_2_at_xz,
            denominator: d.xz,
        },
        Query {
            evaluation: eval.left.partial_collapse,
            claim: query.left.partial_collapse_at_x,
            denominator: d.x,
        },
        Query {
            evaluation: eval.left.partial_collapse,
            claim: query.left.partial_collapse_at_xz,
            denominator: d.xz,
        },
        Query {
            evaluation: eval.left.full_collapse,
            claim: query.left.full_collapse_at_x,
            denominator: d.x,
        },
        Query {
            evaluation: eval.left.full_collapse,
            claim: query.left.full_collapse_at_xz,
            denominator: d.xz,
        },
        Query {
            evaluation: eval.left.compute_v,
            claim: query.left.compute_v_at_x,
            denominator: d.x,
        },
        Query {
            evaluation: eval.left.compute_v,
            claim: query.left.compute_v_at_xz,
            denominator: d.xz,
        },
    ];
    assert(query_views(r@) =~= left_trace_queries_spec(eval, query, d@));
    r
}

/// The queries for the traces of the right proof at `x` and at `xz`.
pub open spec fn right_trace_queries_spec(
    eval: &eval::Output,
    query: &QueryOutput,
    d: Seq<nat>,
) -> Seq<(nat, nat, nat)> {
    seq![
        (eval.right.preamble@, query.right.preamble_at_x@, d[8]),
        (eval.right.preamble@, query.right.preamble_at_xz@, d[23]),
        (eval.right.error_m@, query.right.error_m_at_x@, d[8]),
        (eval.right.error_m@, query.right.error_m_at_xz@, d[23]),
        (eval.right.error_n@, query.right.error_n_at_x@, d[8]),
        (eval.right.error_n@, query.right.error_n_at_xz@, d[23]),
        (eval.right.query@, query.right.query_at_x@, d[8]),
        (eval.right.query@, query.right.query_at_xz@, d[23]),
        (eval.right.eval@, query.right.eval_at_x@, d[8]),
        (eval.right.eval@, query.right.eval_at_xz@, d[23]),
        (eval.right.application@, query.right.application_at_x@, d[8]),
        (eval.right.application@, query.right.application_at_xz@, d[23]),
        (eval.right.hashes_1@, query.right.hashes_1_at_x@, d[8]),
        (eval.right.hashes_1@, query.right.hashes_1_at_xz@, d[23]),
        (eval.right.hashes_2@, query.right.hashes_2_at_x@, d[8]),
        (eval.right.hashes_2@, query.right.hashes_2_at_xz@, d[23]),
        (eval.right.partial_collapse@, query.right.partial_collapse_at_x@, d[8]),
        (eval.right.partial_collapse@, query.right.partial_collapse_at_xz@, d[23]),
        (eval.right.full_collapse@, query.right.full_collapse_at_x@, d[8]),
        (eval.right.full_collapse@, query.right.full_collapse_at_xz@, d[23]),
        (eval.right.compute_v@, query.right.compute_v_at_x@, d[8]),
        (eval.right.compute_v@, query.right.compute_v_at_xz@, d[23]),
    ]
}

/// The queries for the traces of the right proof at `x` and at `xz`.
pub fn right_trace_queries(
    eval: &eval::Output,
    query: &QueryOutput,
    d: &Denominators,
) -> (r: Vec<Query>)
    ensures
        query_views(r@) == right_trace_queries_spec(eval, query, d@),
{
    let r: Vec<Query> = vec![
        Query {
            evaluation: eval.right.preamble,
            claim: query.right.preamble_at_x,
            denominator: d.x,
        },
        Query {
            evaluation: eval.right.preamble,
            claim: query.right.preamble_at_xz,
            denominator: d.xz,
        },
        Query { evaluation: eval.right.error_m, claim: query.right.error_m_at_x, denominator: d.x },
        Query {
            evaluation: eval.right.error_m,
            claim: query.right.error_m_at_xz,
            denominator: d.xz,
        },
        Query { evaluation: eval.right.error_n, claim: query.right.error_n_at_x, denominator: d.x },
        Query {
            evaluation: eval.right.error_n,
            claim: query.right.error_n_at_xz,
            denominator: d.xz,
        },
        Query { evaluation: eval.right.query, claim: query.right.query_at_x, denominator: d.x },
        Query { evaluation: eval.right.query, claim: query.right.query_at_xz, denominator: d.xz },
        Query { evaluation: eval.right.eval, claim: query.right.eval_at_x, denominator: d.x },
        Query { evaluation: eval.right.eval, claim: query.right.eval_at_xz, denominator: d.xz },
        Query {
            evaluation: eval.right.application,
            claim: query.right.application_at_x,
            denominator: d.x,
        },
        Query {
            evaluation: eval.right.application,
            claim: query.right.application_at_xz,
            denominator: d.xz,
        },
        Query {
            evaluation: eval.right.hashes_1,
            claim: query.right.hashes_1_at_x,
            denominator: d.x,
        },
        Query {
            evaluation: eval.right.hashes_1,
            claim: query.right.hashes_1_at_xz,
            denominator: d.xz,
        },
        Query {
            evaluation: eval.right.hashes_2,
            claim: query.right.hashes_2_at_x,
            denominator: d.x,
        },
        Query {
            evaluation: eval.right.hashes_2,
            claim: query.right.hashes_2_at_xz,
            denominator: d.xz,
        },
        Query {
            evaluation: eval.right.partial_collapse,
            claim: query.right.partial_collapse_at_x,
            denominator: d.x,
        },
        Query {
            evaluation: eval.right.partial_collapse,
            claim: query.right.partial_collapse_at_xz,
            denominator: d.xz,
        },
        Query {
            evaluation: eval.right.full_collapse,
            claim: query.right.full_collapse_at_x,
            denominator: d.x,
        },
        Query {
            evaluation: eval.right.full_collapse,
            claim: query.right.full_collapse_at_xz,
            denominator: d.xz,
        },
        Query {
            evaluation: eval.right.compute_v,
            claim: query.right.compute_v_at_x,
            denominator: d.x,
        },
        Query {
            evaluation: eval.right.compute_v,
            claim: query.right.compute_v_at_xz,
            denominator: d.xz,
        },
    ];
    assert(query_views(r@) =~= right_trace_queries_spec(eval, query, d@));
    r
}

/// All queries of a fusion, in the order in which their quotients are
/// combined: each is a polynomial's value at `u`, the value claimed for it
/// at another point, and the denominator for that point. The two queries
/// for the folded polynomials of the fusion under way take the values
/// `computed_ax` and `computed_bx` as their claims.
pub open spec fn poly_queries_spec(
    eval: &eval::Output,
    query: &QueryOutput,
    preamble: &PreambleOutput,
    d: Seq<nat>,
    computed_ax: nat,
    computed_bx: nat,
) -> Seq<(nat, nat, nat)> {
    accumulator_and_registry_queries_spec(eval, query, preamble, d) + circuit_queries_spec(
        eval,
        query,
        d,
    ) + child_ab_queries_spec(eval, query, d) + seq![
        (eval.a_poly@, computed_ax, d[8]),
        (eval.b_poly@, computed_bx, d[8]),
    ] + left_trace_queries_spec(eval, query, d) + right_trace_queries_spec(eval, query, d)
}

/// Appends the queries to the list.
fn extend_queries(r: &mut Vec<Query>, items: &Vec<Query>)
    ensures
        query_views(final(r)@) == query_views(old(r)@) + query_views(items@),
{
    let ghost before = r@;
    let mut i: usize = 0;
    while i < items.len()
        invariant
            i <= items@.len(),
            r@ == before + items@.subrange(0, i as int),
        decreases items@.len() - i,
    {
        r.push(items[i]);
        assert(r@ =~= before + items@.subrange(0, i + 1));
        i += 1;
    }
    assert(items@.subrange(0, items@.len() as int) =~= items@);
    assert(query_views(r@) =~= query_views(before) + query_views(items@));
}

/// All queries of a fusion, in the order in which their quotients are
/// combined.
pub fn poly_queries(
    eval: &eval::Output,
    query: &QueryOutput,
    preamble: &PreambleOutput,
    d: &Denominators,
    computed_ax: &Scalar,
    computed_bx: &Scalar,
) -> (r: Vec<Query>)
    ensures
        query_views(r@) == poly_queries_spec(
            eval,
            query,
            preamble,
            d@,
            computed_ax@,
            computed_bx@,
        ),
{
    let mut r = accumulator_and_registry_queries(eval, query, preamble, d);
    let circuits = circuit_queries(eval, query, d);
    extend_queries(&mut r, &circuits);
    let children = child_ab_queries(eval, query, d);
    extend_queries(&mut r, &children);
    let current: Vec<Query> = vec![
        Query { evaluation: eval.a_poly, claim: *computed_ax, denominator: d.x },
        Query { evaluation: eval.b_poly, claim: *computed_bx, denominator: d.x },
    ];
    assert(query_views(current@) =~= seq![
        (eval.a_poly@, computed_ax@, d@[8]),
        (eval.b_poly@, computed_bx@, d@[8]),
    ]);
    extend_queries(&mut r, &current);
    let left = left_trace_queries(eval, query, d);
    extend_queries(&mut r, &left);
    let right = right_trace_queries(eval, query, d);
    extend_queries(&mut r, &right);
    r
}

/// The quotient of each query: the value at `u` minus the claimed value,
/// times the denominator.
pub open spec fn quotients(queries: Seq<(nat, nat, nat)>) -> Seq<nat> {
    Seq::new(queries.len(), |i: int| fmul(fsub(queries[i].0, queries[i].1), queries[i].2))
}

/// The quotients of the queries combined by powers of `alpha`, the first
/// query under the highest power.
pub fn combine_quotients(queries: &Vec<Query>, alpha: &Scalar) -> (r: Scalar)
    ensures
        r@ == horner_spec(alpha@, quotients(query_views(queries@))),
{
    let ghost all = quotients(query_views(queries@));
    let mut horner = Horner::new(alpha);
    let mut i: usize = 0;
    assert(all.subrange(0, 0) =~= Seq::<nat>::empty());
    while i < queries.len()
        invariant
            i <= queries@.len(),
            all == quotients(query_views(queries@)),
            horner.point() == alpha@,
            horner.written() == all.subrange(0, i as int),
        decreases queries@.len() - i,
    {
        let q = &queries[i];
        let term = q.evaluation.sub(&q.claim).mul(&q.denominator);
        horner.write(&term);
        assert(horner.written() =~= all.subrange(0, i + 1));
        i += 1;
    }
    assert(all.subrange(0, all.len() as int) =~= all);
    horner.finish()
}

/// The value `p(u)` that follows from `f(u)` and the values at `u`: `f(u)`
/// and then the values of the eval stage, combined by powers of `beta`,
/// `f(u)` under the highest power.
pub fn accumulate_evaluations(fu: &Scalar, eval: &eval::Output, beta: &Scalar) -> (r: Scalar)
    ensures
        r@ == horner_spec(beta@, seq![fu@] + eval@),
{
    let stage_values = eval::Stage::stage_values(eval);
    let ghost all = seq![fu@] + eval@;
    let mut horner = Horner::new(beta);
    horner.write(fu);
    assert(horner.written() =~= all.subrange(0, 1));
    let mut i: usize = 0;
    while i < stage_values.len()
        invariant
            i <= stage_values@.len(),
            values(stage_values@) == eval@,
            all == seq![fu@] + eval@,
            horner.point() == beta@,
            horner.written() == all.subrange(0, i + 1),
        decreases stage_values@.len() - i,
    {
        horner.write(&stage_values[i]);
        assert(horner.written() =~= all.subrange(0, i + 2));
        i += 1;
    }
    assert(all.subrange(0, all.len() as int) =~= all);
    horner.finish()
}

/// What the check takes besides the public inputs.
pub struct Witness<'a> {
    /// The public inputs of the fusion.
    pub unified_instance: &'a Instance,
    /// The preamble stage.
    pub preamble_witness: &'a PreambleOutput,
    /// The answers to the queries.
    pub query_witness: &'a QueryOutput,
    /// The values at `u`.
    pub eval_witness: &'a eval::Output,
}

/// Whether the value `p(u)` can be derived from the witness: `mu` and `mu'`
/// are invertible and `u` differs from every point at which a value is
/// claimed.
pub open spec fn admissible(witness: &Witness, points: &InternalPoints) -> bool {
    let i = witness.unified_instance;
    &&& i.mu@ != 0
    &&& i.mu_prime@ != 0
    &&& distinct_from_points(i.u@, i.w@, i.x@, i.y@, i.z@, witness.preamble_witness, points)
}

/// The value `p(u)` that the witness implies, for the factor `beta` of the
/// accumulation, the points of the fusion's circuits, `n` gates and the
/// given shape of the folding reduction.
pub open spec fn computed_v(
    witness: &Witness,
    beta: nat,
    points: &InternalPoints,
    n: nat,
    params: Parameters,
) -> nat {
    let i = witness.unified_instance;
    let denominators = denominators_spec(
        i.u@,
        i.w@,
        i.x@,
        i.y@,
        i.z@,
        witness.preamble_witness,
        points,
    );
    let txz = eval_spec(tz_spec(i.z@, n), i.x@);
    let ax = two_layer_spec(
        ax_sources(witness.query_witness, i.z@),
        params.spec_n(),
        params.spec_m(),
        finv(i.mu@),
        finv(i.mu_prime@),
    );
    let bx = two_layer_spec(
        bx_sources(witness.query_witness, txz),
        params.spec_n(),
        params.spec_m(),
        fmul(i.mu@, i.nu@),
        fmul(i.mu_prime@, i.nu_prime@),
    );
    let fu = horner_spec(
        i.alpha@,
        quotients(
            poly_queries_spec(
                witness.eval_witness,
                witness.query_witness,
                witness.preamble_witness,
                denominators,
                ax,
                bx,
            ),
        ),
    );
    horner_spec(beta, seq![fu] + witness.eval_witness@)
}

/// The circuit that checks the claimed value `v`.
#[derive(Clone, Copy, Debug)]
pub struct Circuit {
    num_application_steps: usize,
}

impl Circuit {
    /// The number of steps that the application registered.
    pub closed spec fn spec_num_application_steps(&self) -> nat {
        self.num_application_steps as nat
    }

    /// The check for an application with the given number of steps.
    pub fn new(num_application_steps: usize) -> (r: Circuit)
        ensures
            r.spec_num_application_steps() == num_application_steps,
    {
        Circuit { num_application_steps }
    }

    /// The number of steps that the application registered.
    pub fn num_application_steps(&self) -> (r: usize)
        ensures
            r == self.spec_num_application_steps(),
    {
        self.num_application_steps
    }

    /// The value `p(u)` that the witness implies. It is refused where one
    /// of the challenges `mu` and `mu'` is zero, or where `u` coincides
    /// with a point at which a value is claimed.
    pub fn compute(
        &self,
        witness: &Witness,
        beta: &Scalar,
        points: &InternalPoints,
        rank: Rank,
        params: Parameters,
    ) -> (r: Result<Scalar, Error>)
        ensures
            match r {
                Ok(v) => {
                    &&& admissible(witness, points)
                    &&& v@ == computed_v(witness, beta@, points, rank.spec_n(), params)
                },
                Err(e) => {
                    &&& e == Error::DomainPointInvalid
                    &&& !admissible(witness, points)
                },
            },
    {
        let i = witness.unified_instance;
        let mu_inv = match i.mu.invert() {
            Some(inv) => inv,
            None => {
                return Err(Error::DomainPointInvalid);
            },
        };
        let mu_prime_inv = match i.mu_prime.invert() {
            Some(inv) => inv,
            None => {
                return Err(Error::DomainPointInvalid);
            },
        };
        let denominators = match Denominators::new(
            &i.u,
            &i.w,
            &i.x,
            &i.y,
            &i.z,
            witness.preamble_witness,
            points,
        ) {
            Ok(d) => d,
            Err(e) => {
                return Err(e);
            },
        };
        let txz = tz(rank, &i.z).eval(&i.x);
        let munu = i.mu.mul(&i.nu);
        let mu_prime_nu_prime = i.mu_prime.mul(&i.nu_prime);
        let (ax, bx) = compute_axbx(
            witness.query_witness,
            &i.z,
            &txz,
            &mu_inv,
            &mu_prime_inv,
            &munu,
            &mu_prime_nu_prime,
            params,
        );
        let queries = poly_queries(
            witness.eval_witness,
            witness.query_witness,
            witness.preamble_witness,
            &denominators,
            &ax,
            &bx,
        );
        let fu = combine_quotients(&queries, &i.alpha);
        let v = accumulate_evaluations(&fu, witness.eval_witness, beta);
        Ok(v)
    }

    /// Whether the value `v` that the public inputs claim is the value that
    /// the witness implies. Where neither of the two proofs consumed was
    /// made by a fusion, any claimed value is accepted.
    pub fn check(
        &self,
        witness: &Witness,
        beta: &Scalar,
        points: &InternalPoints,
        rank: Rank,
        params: Parameters,
    ) -> (r: Result<bool, Error>)
        ensures
            match r {
                Ok(accepted) => {
                    &&& admissible(witness, points)
                    &&& accepted == ((witness.preamble_witness.left.trivial
                        && witness.preamble_witness.right.trivial) || witness.unified_instance.v@
                        == computed_v(witness, beta@, points, rank.spec_n(), params))
                },
                Err(e) => {
                    &&& e == Error::DomainPointInvalid
                    &&& !admissible(witness, points)
                },
            },
    {
        match self.compute(witness, beta, points, rank, params) {
            Ok(v) => Ok(
                witness.preamble_witness.is_base_case() || v.equals(&witness.unified_instance.v),
            ),
            Err(e) => Err(e),
        }
    }
}

} // verus!
