//! The last round: every polynomial committed so far is accumulated into
//! one polynomial `p`, and `p(u)` is the value `v` that the proof claims.
//!
//! The accumulation is a Horner scheme in the factor `beta`: starting from
//! the combined quotient polynomial, each step multiplies what has been
//! gathered by `beta` and adds the next polynomial; the blinding factors
//! are combined in the same way, and the commitments are listed in the same
//! order. The order is fixed: the polynomials of the left proof, those of
//! the right proof, then those of the fusion under way.
//! [`lemma_accumulated_value`] proves that `p(u)` is then the same Horner
//! scheme over the values at `u`, which is how the circuit that checks `v`
//! derives it.

use crate::algebra::lemma_fmul_zero;
use crate::circuits::stages::eval::child_polynomials;
use crate::circuits::stages::eval::current_polynomials;
use crate::circuits::stages::eval::evaluations;
use crate::components::horner::horner_spec;
use crate::curve::commit_spec;
use crate::curve::curve_multiple;
use crate::curve::curve_sum;
use crate::curve::generators_on_curve;
use crate::curve::lemma_commit_is_homomorphic;
use crate::curve::group_laws;
use crate::curve::Generators;
use crate::curve::Point;
use crate::field::fadd;
use crate::field::fmul;
use crate::field::Scalar;
use crate::fuse::Application;
use crate::pcd::ABProof;
use crate::pcd::CommittedStructured;
use crate::pcd::CommittedUnstructured;
use crate::pcd::ErrorMProof;
use crate::pcd::FProof;
use crate::pcd::Proof;
use crate::pcd::QueryProof;
use crate::pcd::SPrimeProof;
use crate::polynomials::committed::Committable;
use crate::polynomials::eval_spec;
use crate::polynomials::algebra::lemma_eval_in_field;
use crate::polynomials::algebra::lemma_eval_scale;
use crate::polynomials::algebra::lemma_eval_sum;
use crate::polynomials::scale_spec;
use crate::polynomials::sum_spec;
use crate::polynomials::unstructured;
use crate::polynomials::Rank;
use vstd::prelude::*;

verus! {

/// What is accumulated of one committed polynomial: its coefficients, its
/// blinding factor, and the coordinates of its commitment.
pub type Term = (Seq<nat>, nat, (nat, nat));

/// The polynomial accumulated from `start` and the polynomials of `terms`:
/// each step multiplies by `beta` and adds the next polynomial.
pub open spec fn accumulated_poly(start: Seq<nat>, terms: Seq<Term>, beta: nat) -> Seq<nat>
    decreases terms.len(),
{
    if terms.len() == 0 {
        start
    } else {
        sum_spec(
            scale_spec(accumulated_poly(start, terms.drop_last(), beta), beta),
            terms.last().0,
        )
    }
}

/// The blinding factor accumulated from `start` and the blinding factors of
/// `terms`: each step multiplies by `beta` and adds the next blinding
/// factor.
pub open spec fn accumulated_blind(start: nat, terms: Seq<Term>, beta: nat) -> nat
    decreases terms.len(),
{
    if terms.len() == 0 {
        start
    } else {
        fadd(fmul(beta, accumulated_blind(start, terms.drop_last(), beta)), terms.last().1)
    }
}

/// The commitments of the terms, in order.
pub open spec fn commitments_of(terms: Seq<Term>) -> Seq<(nat, nat)> {
    Seq::new(terms.len(), |i: int| terms[i].2)
}

/// The polynomials of the terms, in order.
pub open spec fn polys_of(terms: Seq<Term>) -> Seq<Seq<nat>> {
    Seq::new(terms.len(), |i: int| terms[i].0)
}

/// The term of a committed polynomial in the structured layout.
pub open spec fn structured_term(cp: &CommittedStructured) -> Term {
    (cp.spec_poly()@, cp.spec_blind(), cp.spec_commitment())
}

/// The term of a committed polynomial in the unstructured layout.
pub open spec fn unstructured_term(cp: &CommittedUnstructured) -> Term {
    (cp.spec_poly()@, cp.spec_blind(), cp.spec_commitment())
}

/// The terms that one of the two proofs consumed contributes, in the order
/// in which they are accumulated.
pub open spec fn child_terms(proof: &Proof) -> Seq<Term> {
    seq![
        structured_term(&proof.application.rx),
        structured_term(&proof.preamble.native_rx),
        structured_term(&proof.error_n.native_rx),
        structured_term(&proof.error_m.native_rx),
        structured_term(&proof.ab.a),
        structured_term(&proof.ab.b),
        structured_term(&proof.query.native_rx),
        unstructured_term(&proof.query.registry_xy),
        structured_term(&proof.eval.native_rx),
        unstructured_term(&proof.p.poly),
        structured_term(&proof.circuits.hashes_1),
        structured_term(&proof.circuits.hashes_2),
        structured_term(&proof.circuits.partial_collapse),
        structured_term(&proof.circuits.full_collapse),
        structured_term(&proof.circuits.compute_v),
    ]
}

/// The terms that the fusion under way contributes, in the order in which
/// they are accumulated.
pub open spec fn current_terms(
    s_prime: &SPrimeProof,
    error_m: &ErrorMProof,
    ab: &ABProof,
    query: &QueryProof,
) -> Seq<Term> {
    seq![
        unstructured_term(&s_prime.registry_wx0),
        unstructured_term(&s_prime.registry_wx1),
        structured_term(&error_m.registry_wy),
        structured_term(&ab.a),
        structured_term(&ab.b),
        unstructured_term(&query.registry_xy),
    ]
}

/// All terms of an accumulation, in order: the left proof, the right proof,
/// the fusion under way.
pub open spec fn accumulation_order(
    left: &Proof,
    right: &Proof,
    s_prime: &SPrimeProof,
    error_m: &ErrorMProof,
    ab: &ABProof,
    query: &QueryProof,
) -> Seq<Term> {
    child_terms(left) + child_terms(right) + current_terms(s_prime, error_m, ab, query)
}

/// Whether every term holds a polynomial of `len` coefficients.
pub open spec fn terms_of_len(terms: Seq<Term>, len: nat) -> bool {
    forall|i: int| 0 <= i < terms.len() ==> (#[trigger] terms[i]).0.len() == len
}

/// The accumulated polynomial has the length of its terms.
pub proof fn lemma_accumulated_len(start: Seq<nat>, terms: Seq<Term>, beta: nat, len: nat)
    requires
        start.len() == len,
        terms_of_len(terms, len),
    ensures
        accumulated_poly(start, terms, beta).len() == len,
    decreases terms.len(),
{
    if terms.len() > 0 {
        lemma_accumulated_len(start, terms.drop_last(), beta, len);
    }
}

/// The value of the accumulated polynomial at `u` is the accumulation of
/// the values at `u`: the value of the start and then the values of the
/// terms, combined by powers of `beta`, the start under the highest power.
pub proof fn lemma_accumulated_value(start: Seq<nat>, terms: Seq<Term>, beta: nat, u: nat, len: nat)
    requires
        start.len() == len,
        terms_of_len(terms, len),
    ensures
        eval_spec(accumulated_poly(start, terms, beta), u) == horner_spec(
            beta,
            seq![eval_spec(start, u)] + evaluations(polys_of(terms), u),
        ),
    decreases terms.len(),
{
    let values = seq![eval_spec(start, u)] + evaluations(polys_of(terms), u);
    if terms.len() == 0 {
        assert(values =~= seq![eval_spec(start, u)]);
        assert(values.drop_last() =~= Seq::<nat>::empty());
        assert(horner_spec(beta, values.drop_last()) == 0);
        lemma_fmul_zero(beta);
        lemma_eval_in_field(start, u);
        crate::algebra::lemma_reduced(eval_spec(start, u));
    } else {
        let rest = terms.drop_last();
        let before = accumulated_poly(start, rest, beta);
        lemma_accumulated_len(start, rest, beta, len);
        lemma_accumulated_value(start, rest, beta, u, len);
        lemma_eval_sum(scale_spec(before, beta), terms.last().0, u);
        lemma_eval_scale(before, beta, u);
        assert(values.drop_last() =~= seq![eval_spec(start, u)] + evaluations(
            polys_of(rest),
            u,
        ));
        assert(values.last() == eval_spec(terms.last().0, u));
        crate::algebra::lemma_fmul_comm(beta, eval_spec(before, u));
    }
}

/// A committed polynomial that is to be accumulated.
#[derive(Clone, Copy)]
pub enum TermRef<'a> {
    /// One in the structured layout.
    Structured(&'a CommittedStructured),
    /// One in the unstructured layout.
    Unstructured(&'a CommittedUnstructured),
}

impl<'a> TermRef<'a> {
    /// What is accumulated of the polynomial.
    pub open spec fn term(&self) -> Term {
        match self {
            TermRef::Structured(cp) => structured_term(cp),
            TermRef::Unstructured(cp) => unstructured_term(cp),
        }
    }

    /// The rank of the polynomial.
    pub open spec fn rank(&self) -> Rank {
        match self {
            TermRef::Structured(cp) => cp.spec_poly().spec_rank(),
            TermRef::Unstructured(cp) => cp.spec_poly().spec_rank(),
        }
    }
}

/// Whether the polynomial has as many coefficients as its rank fixes. Every
/// committed polynomial does.
pub open spec fn full_length(r: TermRef) -> bool {
    r.term().0.len() == r.rank().spec_num_coeffs()
}

/// The committed polynomial in the structured layout, to be accumulated.
pub fn structured_ref<'a>(cp: &'a CommittedStructured) -> (r: TermRef<'a>)
    ensures
        r == TermRef::Structured(cp),
        full_length(r),
{
    let _ = cp.poly().rank();
    TermRef::Structured(cp)
}

/// The committed polynomial in the unstructured layout, to be accumulated.
pub fn unstructured_ref<'a>(cp: &'a CommittedUnstructured) -> (r: TermRef<'a>)
    ensures
        r == TermRef::Unstructured(cp),
        full_length(r),
{
    let _ = cp.poly().rank();
    TermRef::Unstructured(cp)
}

/// What is accumulated of each polynomial of a list.
pub open spec fn terms_of(refs: Seq<TermRef>) -> Seq<Term> {
    Seq::new(refs.len(), |i: int| refs[i].term())
}

/// The running state of an accumulation.
pub struct Accumulator {
    poly: unstructured::Polynomial,
    blind: Scalar,
    commitments: Vec<Point>,
    beta: Scalar,
}

impl Accumulator {
    /// The polynomial accumulated so far.
    pub closed spec fn poly(&self) -> Seq<nat> {
        self.poly@
    }

    /// The rank of the accumulation.
    pub closed spec fn rank(&self) -> Rank {
        self.poly.spec_rank()
    }

    /// The blinding factor accumulated so far.
    pub closed spec fn blind(&self) -> nat {
        self.blind@
    }

    /// The commitments gathered so far.
    pub closed spec fn commitments(&self) -> Seq<(nat, nat)> {
        crate::curve::points(self.commitments@)
    }

    /// The factor of the accumulation.
    pub closed spec fn beta(&self) -> nat {
        self.beta@
    }

    /// An accumulation that starts from the given committed polynomial.
    pub fn new(start: &CommittedUnstructured, beta: Scalar) -> (r: Accumulator)
        ensures
            r.poly() == start.spec_poly()@,
            r.rank() == start.spec_poly().spec_rank(),
            r.blind() == start.spec_blind(),
            r.commitments() == Seq::<(nat, nat)>::empty(),
            r.beta() == beta@,
    {
        let r = Accumulator {
            poly: start.poly().duplicate(),
            blind: start.blind(),
            commitments: Vec::new(),
            beta,
        };
        assert(r.commitments() =~= Seq::<(nat, nat)>::empty());
        r
    }

    /// Accumulates one committed polynomial: the polynomial and the
    /// blinding factor gathered so far are multiplied by `beta`, the new
    /// ones are added, and the commitment joins the list.
    pub fn acc(&mut self, cp: TermRef)
        requires
            cp.rank() == old(self).rank(),
        ensures
            final(self).rank() == old(self).rank(),
            final(self).beta() == old(self).beta(),
            final(self).poly() == sum_spec(
                scale_spec(old(self).poly(), old(self).beta()),
                cp.term().0,
            ),
            final(self).blind() == fadd(fmul(old(self).beta(), old(self).blind()), cp.term().1),
            final(self).commitments() == old(self).commitments().push(cp.term().2),
    {
        self.poly.scale(&self.beta);
        match cp {
            TermRef::Structured(cp) => {
                self.poly.add_structured(cp.poly());
                self.blind = self.beta.mul(&self.blind).add(&cp.blind());
                self.commitments.push(cp.commitment());
            },
            TermRef::Unstructured(cp) => {
                self.poly.add_assign(cp.poly());
                self.blind = self.beta.mul(&self.blind).add(&cp.blind());
                self.commitments.push(cp.commitment());
            },
        }
        assert(self.commitments() =~= old(self).commitments().push(cp.term().2));
    }

    /// Accumulates the committed polynomials of the list, in order.
    pub fn acc_all(&mut self, refs: &Vec<TermRef>)
        requires
            forall|i: int| 0 <= i < refs@.len() ==> (
                #[trigger] refs@[i]
            ).rank() == old(self).rank(),
        ensures
            final(self).rank() == old(self).rank(),
            final(self).beta() == old(self).beta(),
            final(self).poly() == accumulated_poly(
                old(self).poly(),
                terms_of(refs@),
                old(self).beta(),
            ),
            final(self).blind() == accumulated_blind(
                old(self).blind(),
                terms_of(refs@),
                old(self).beta(),
            ),
            final(self).commitments() == old(self).commitments() + commitments_of(
                terms_of(refs@),
            ),
    {
        let ghost all = terms_of(refs@);
        let ghost start_poly = self.poly();
        let ghost start_blind = self.blind();
        let ghost start_commitments = self.commitments();
        let ghost beta = self.beta();
        let ghost rank = self.rank();
        let mut i: usize = 0;
        assert(all.subrange(0, 0) =~= Seq::<Term>::empty());
        assert(self.commitments() =~= start_commitments + commitments_of(all.subrange(0, 0)));
        while i < refs.len()
            invariant
                i <= refs@.len(),
                all == terms_of(refs@),
                forall|k: int| 0 <= k < refs@.len() ==> (#[trigger] refs@[k]).rank() == rank,
                self.rank() == rank,
                self.beta() == beta,
                self.poly() == accumulated_poly(start_poly, all.subrange(0, i as int), beta),
                self.blind() == accumulated_blind(start_blind, all.subrange(0, i as int), beta),
                self.commitments() == start_commitments + commitments_of(
                    all.subrange(0, i as int),
                ),
            decreases refs@.len() - i,
        {
            let ghost before = self.commitments();
            self.acc(refs[i]);
            proof {
                let next = all.subrange(0, i + 1);
                assert(next.drop_last() =~= all.subrange(0, i as int));
                assert(next.last() == refs@[i as int].term());
                assert(self.commitments() =~= start_commitments + commitments_of(next));
            }
            i += 1;
        }
        assert(all.subrange(0, all.len() as int) =~= all);
    }

    /// The polynomial, the blinding factor and the commitments gathered.
    pub fn finish(self) -> (r: (unstructured::Polynomial, Scalar, Vec<Point>))
        ensures
            r.0@ == self.poly(),
            r.0.spec_rank() == self.rank(),
            r.1@ == self.blind(),
            crate::curve::points(r.2@) == self.commitments(),
    {
        (self.poly, self.blind, self.commitments)
    }
}

/// The committed polynomials of one of the two proofs consumed, in the
/// order in which they are accumulated.
pub fn child_refs<'a>(proof: &'a Proof) -> (r: Vec<TermRef<'a>>)
    ensures
        terms_of(r@) == child_terms(proof),
        r@.len() == 15,
        forall|i: int| 0 <= i < 15 ==> full_length(#[trigger] r@[i]),
        forall|rank: Rank|
            proof.of_rank(rank) ==> forall|i: int|
                0 <= i < 15 ==> (#[trigger] r@[i]).rank() == rank,
{
    let r: Vec<TermRef<'a>> = vec![
        structured_ref(&proof.application.rx),
        structured_ref(&proof.preamble.native_rx),
        structured_ref(&proof.error_n.native_rx),
        structured_ref(&proof.error_m.native_rx),
        structured_ref(&proof.ab.a),
        structured_ref(&proof.ab.b),
        structured_ref(&proof.query.native_rx),
        unstructured_ref(&proof.query.registry_xy),
        structured_ref(&proof.eval.native_rx),
        unstructured_ref(&proof.p.poly),
        structured_ref(&proof.circuits.hashes_1),
        structured_ref(&proof.circuits.hashes_2),
        structured_ref(&proof.circuits.partial_collapse),
        structured_ref(&proof.circuits.full_collapse),
        structured_ref(&proof.circuits.compute_v),
    ];
    assert(terms_of(r@) =~= child_terms(proof));
    r
}

/// The committed polynomials of the fusion under way, in the order in which
/// they are accumulated.
pub fn current_refs<'a>(
    s_prime: &'a SPrimeProof,
    error_m: &'a ErrorMProof,
    ab: &'a ABProof,
    query: &'a QueryProof,
) -> (r: Vec<TermRef<'a>>)
    ensures
        terms_of(r@) == current_terms(s_prime, error_m, ab, query),
        r@.len() == 6,
        forall|i: int| 0 <= i < 6 ==> full_length(#[trigger] r@[i]),
        r@[0].rank() == s_prime.registry_wx0.spec_poly().spec_rank(),
        r@[1].rank() == s_prime.registry_wx1.spec_poly().spec_rank(),
        r@[2].rank() == error_m.registry_wy.spec_poly().spec_rank(),
        r@[3].rank() == ab.a.spec_poly().spec_rank(),
        r@[4].rank() == ab.b.spec_poly().spec_rank(),
        r@[5].rank() == query.registry_xy.spec_poly().spec_rank(),
{
    let r: Vec<TermRef<'a>> = vec![
        unstructured_ref(&s_prime.registry_wx0),
        unstructured_ref(&s_prime.registry_wx1),
        structured_ref(&error_m.registry_wy),
        structured_ref(&ab.a),
        structured_ref(&ab.b),
        unstructured_ref(&query.registry_xy),
    ];
    assert(terms_of(r@) =~= current_terms(s_prime, error_m, ab, query));
    r
}

/// Accumulating one list of terms and then another is accumulating the two
/// lists joined.
pub proof fn lemma_accumulation_joins(
    start_poly: Seq<nat>,
    start_blind: nat,
    first: Seq<Term>,
    second: Seq<Term>,
    beta: nat,
)
    ensures
        accumulated_poly(accumulated_poly(start_poly, first, beta), second, beta)
            == accumulated_poly(start_poly, first + second, beta),
        accumulated_blind(accumulated_blind(start_blind, first, beta), second, beta)
            == accumulated_blind(start_blind, first + second, beta),
        commitments_of(first) + commitments_of(second) == commitments_of(first + second),
    decreases second.len(),
{
    if second.len() == 0 {
        assert(first + second =~= first);
    } else {
        lemma_accumulation_joins(start_poly, start_blind, first, second.drop_last(), beta);
        assert((first + second).drop_last() =~= first + second.drop_last());
        assert((first + second).last() == second.last());
    }
    assert(commitments_of(first) + commitments_of(second) =~= commitments_of(first + second));
}

/// The point accumulated from `start` and the commitments of `terms`: each
/// step multiplies by `beta` and adds the next commitment.
pub open spec fn accumulated_point(start: (nat, nat), terms: Seq<Term>, beta: nat) -> (nat, nat)
    decreases terms.len(),
{
    if terms.len() == 0 {
        start
    } else {
        curve_sum(
            curve_multiple(accumulated_point(start, terms.drop_last(), beta), beta),
            terms.last().2,
        )
    }
}

/// Whether the commitment of every term is the commitment to its
/// polynomial under its blinding factor.
pub open spec fn terms_consistent(terms: Seq<Term>, g: Seq<(nat, nat)>, h: (nat, nat)) -> bool {
    forall|i: int|
        0 <= i < terms.len() ==> (#[trigger] terms[i]).2 == commit_spec(
            terms[i].0,
            terms[i].1,
            g,
            h,
        )
}

/// In a group of the order of the circuit field, the commitment to the
/// accumulated polynomial under the accumulated blinding factor is the
/// accumulation of the commitments:
/// whoever holds the commitments alone can recompute it.
pub proof fn lemma_accumulated_commitment(
    start: Seq<nat>,
    start_blind: nat,
    terms: Seq<Term>,
    beta: nat,
    g: Seq<(nat, nat)>,
    h: (nat, nat),
    len: nat,
)
    requires
        group_laws(),
        generators_on_curve(g, h, len),
        start.len() == len,
        terms_of_len(terms, len),
        terms_consistent(terms, g, h),
    ensures
        commit_spec(
            accumulated_poly(start, terms, beta),
            accumulated_blind(start_blind, terms, beta),
            g,
            h,
        ) == accumulated_point(commit_spec(start, start_blind, g, h), terms, beta),
    decreases terms.len(),
{
    if terms.len() > 0 {
        let rest = terms.drop_last();
        let last = terms.last();
        lemma_accumulated_commitment(start, start_blind, rest, beta, g, h, len);
        lemma_accumulated_len(start, rest, beta, len);
        assert(last == terms[terms.len() - 1]);
        lemma_commit_is_homomorphic(
            accumulated_poly(start, rest, beta),
            last.0,
            accumulated_blind(start_blind, rest, beta),
            last.1,
            beta,
            g,
            h,
        );
    }
}

/// The order of the accumulation is the order of the eval stage: the values
/// at `u` of the accumulated polynomials, in the order in which they are
/// accumulated, are the values that the eval stage holds, in the order in
/// which it holds them. The value `p(u)` that the last round claims is
/// therefore the value that the check of `v` derives from `f(u)` and the
/// eval stage.
pub proof fn lemma_accumulation_follows_the_eval_stage(
    left: &Proof,
    right: &Proof,
    s_prime: &SPrimeProof,
    error_m: &ErrorMProof,
    ab: &ABProof,
    query: &QueryProof,
    u: nat,
)
    ensures
        evaluations(polys_of(accumulation_order(left, right, s_prime, error_m, ab, query)), u)
            == evaluations(child_polynomials(left), u) + evaluations(
            child_polynomials(right),
            u,
        ) + evaluations(current_polynomials(s_prime, error_m, ab, query), u),
{
    let order = accumulation_order(left, right, s_prime, error_m, ab, query);
    let stage = evaluations(child_polynomials(left), u) + evaluations(
        child_polynomials(right),
        u,
    ) + evaluations(current_polynomials(s_prime, error_m, ab, query), u);
    let accumulated = evaluations(polys_of(order), u);
    assert(accumulated.len() == stage.len());
    assert forall|i: int| 0 <= i < 36 implies accumulated[i] == stage[i] by {
        if i < 15 {
            assert(order[i] == child_terms(left)[i]);
            assert(order[i].0 == child_polynomials(left)[i]);
        } else if i < 30 {
            assert(order[i] == child_terms(right)[i - 15]);
            assert(order[i].0 == child_polynomials(right)[i - 15]);
        } else {
            assert(order[i] == current_terms(s_prime, error_m, ab, query)[i - 30]);
            assert(order[i].0 == current_polynomials(s_prime, error_m, ab, query)[i - 30]);
        }
    }
    assert(accumulated =~= stage);
}

/// The points accumulated: each step multiplies what has been gathered by
/// `beta` and adds the next point; the first point is the start.
pub open spec fn accumulated_points(points: Seq<(nat, nat)>, beta: nat) -> (nat, nat)
    decreases points.len(),
{
    if points.len() == 0 {
        (0nat, 0nat)
    } else if points.len() == 1 {
        points[0]
    } else {
        curve_sum(curve_multiple(accumulated_points(points.drop_last(), beta), beta), points.last())
    }
}

/// The accumulation of a start and the commitments of terms is the
/// accumulation of the list that begins with the start and goes on with
/// the commitments.
pub proof fn lemma_accumulated_points_of_terms(start: (nat, nat), terms: Seq<Term>, beta: nat)
    ensures
        accumulated_points(seq![start] + commitments_of(terms), beta) == accumulated_point(
            start,
            terms,
            beta,
        ),
    decreases terms.len(),
{
    let points = seq![start] + commitments_of(terms);
    if terms.len() > 0 {
        lemma_accumulated_points_of_terms(start, terms.drop_last(), beta);
        assert(points.drop_last() =~= seq![start] + commitments_of(terms.drop_last()));
        assert(points.last() == terms.last().2);
    }
}

/// Recomputes a commitment from the commitments that were accumulated into
/// it: each step multiplies by `beta` and adds the next point. Of no points
/// the point at infinity is made.
pub fn accumulate_points(points: &Vec<Point>, beta: &Scalar) -> (r: Point)
    ensures
        r@ == accumulated_points(crate::curve::points(points@), beta@),
{
    let ghost all = crate::curve::points(points@);
    if points.len() == 0 {
        return Point::identity();
    }
    let mut acc = points[0];
    let mut i: usize = 1;
    assert(all.subrange(0, 1) =~= seq![all[0]]);
    while i < points.len()
        invariant
            1 <= i <= points@.len(),
            all == crate::curve::points(points@),
            acc@ == accumulated_points(all.subrange(0, i as int), beta@),
        decreases points@.len() - i,
    {
        proof {
            let next = all.subrange(0, i + 1);
            assert(next.drop_last() =~= all.subrange(0, i as int));
            assert(next.last() == points@[i as int]@);
        }
        acc = acc.mul(beta).add(&points[i]);
        i += 1;
    }
    assert(all.subrange(0, all.len() as int) =~= all);
    acc
}

/// What the last round computes on the host curve.
pub struct Accumulated {
    /// The accumulated polynomial `p`, committed with the accumulated
    /// blinding factor.
    pub poly: CommittedUnstructured,
    /// The claimed value `p(u)`.
    pub v: Scalar,
    /// The commitment of the combined quotient and then the commitments of
    /// the accumulated polynomials, in the order of the accumulation.
    pub points: Vec<Point>,
}

/// The last round. Starting from the combined quotient polynomial `f`, the
/// polynomials of the left proof, of the right proof and of the fusion
/// under way are accumulated with the factor `beta`; the result is
/// committed to with the accumulated blinding factor, and evaluated at
/// `u`.
pub fn compute_p(
    generators: &Generators,
    rank: Rank,
    beta: &Scalar,
    u: &Scalar,
    left: &Proof,
    right: &Proof,
    s_prime: &SPrimeProof,
    error_m: &ErrorMProof,
    ab: &ABProof,
    query: &QueryProof,
    f: &FProof,
) -> (r: Accumulated)
    requires
        rank.spec_num_coeffs() <= generators.g().len(),
        left.of_rank(rank),
        right.of_rank(rank),
        s_prime.registry_wx0.spec_poly().spec_rank() == rank,
        s_prime.registry_wx1.spec_poly().spec_rank() == rank,
        error_m.registry_wy.spec_poly().spec_rank() == rank,
        ab.a.spec_poly().spec_rank() == rank,
        ab.b.spec_poly().spec_rank() == rank,
        query.registry_xy.spec_poly().spec_rank() == rank,
        f.poly.spec_poly().spec_rank() == rank,
    ensures
        r.poly.spec_poly().spec_rank() == rank,
        r.poly.spec_poly()@ == accumulated_poly(
            f.poly.spec_poly()@,
            accumulation_order(left, right, s_prime, error_m, ab, query),
            beta@,
        ),
        r.poly.spec_blind() == accumulated_blind(
            f.poly.spec_blind(),
            accumulation_order(left, right, s_prime, error_m, ab, query),
            beta@,
        ),
        r.poly.consistent(generators),
        r.v@ == eval_spec(r.poly.spec_poly()@, u@),
        r.v@ == horner_spec(
            beta@,
            seq![eval_spec(f.poly.spec_poly()@, u@)] + evaluations(
                polys_of(accumulation_order(left, right, s_prime, error_m, ab, query)),
                u@,
            ),
        ),
        crate::curve::points(r.points@) == seq![f.poly.spec_commitment()] + commitments_of(
            accumulation_order(left, right, s_prime, error_m, ab, query),
        ),
{
    let ghost order = accumulation_order(left, right, s_prime, error_m, ab, query);
    let ghost start = f.poly.spec_poly()@;
    let mut acc = Accumulator::new(&f.poly, *beta);
    let left_refs = child_refs(left);
    let right_refs = child_refs(right);
    let current = current_refs(s_prime, error_m, ab, query);
    acc.acc_all(&left_refs);
    acc.acc_all(&right_refs);
    acc.acc_all(&current);
    proof {
        lemma_accumulation_joins(
            start,
            f.poly.spec_blind(),
            child_terms(left),
            child_terms(right),
            beta@,
        );
        lemma_accumulation_joins(
            start,
            f.poly.spec_blind(),
            child_terms(left) + child_terms(right),
            current_terms(s_prime, error_m, ab, query),
            beta@,
        );
        lemma_accumulation_joins(
            start,
            f.poly.spec_blind(),
            child_terms(left),
            child_terms(right) + current_terms(s_prime, error_m, ab, query),
            beta@,
        );
    }
    let (poly, blind, commitments) = acc.finish();
    let _ = f.poly.poly().rank();
    let _ = poly.rank();
    proof {
        assert forall|i: int| 0 <= i < order.len() implies (#[trigger] order[i]).0.len()
            == rank.spec_num_coeffs() by {
            if i < 15 {
                assert(full_length(left_refs@[i]));
                assert(order[i] == terms_of(left_refs@)[i]);
            } else if i < 30 {
                assert(full_length(right_refs@[i - 15]));
                assert(order[i] == terms_of(right_refs@)[i - 15]);
            } else {
                assert(full_length(current@[i - 30]));
                assert(order[i] == terms_of(current@)[i - 30]);
            }
        }
        lemma_accumulated_value(start, order, beta@, u@, rank.spec_num_coeffs());
    }
    let v = poly.eval(u);
    let committed = poly.commit_with_blind(generators, blind);
    let mut points: Vec<Point> = Vec::new();
    points.push(f.poly.commitment());
    let ghost head = crate::curve::points(points@);
    let mut i: usize = 0;
    while i < commitments.len()
        invariant
            i <= commitments@.len(),
            head == seq![f.poly.spec_commitment()],
            crate::curve::points(points@) == head + crate::curve::points(commitments@).subrange(
                0,
                i as int,
            ),
        decreases commitments@.len() - i,
    {
        let ghost before = crate::curve::points(points@);
        points.push(commitments[i]);
        assert(crate::curve::points(points@) =~= before.push(commitments@[i as int]@));
        assert(crate::curve::points(points@) =~= head + crate::curve::points(
            commitments@,
        ).subrange(0, i + 1));
        i += 1;
    }
    assert(crate::curve::points(commitments@).subrange(0, commitments@.len() as int)
        =~= crate::curve::points(commitments@));
    Accumulated { poly: committed, v, points }
}

impl Application {
    /// The last round under the generators and the rank of the
    /// application; see [`compute_p`].
    pub fn compute_p(
        &self,
        beta: &Scalar,
        u: &Scalar,
        left: &Proof,
        right: &Proof,
        s_prime: &SPrimeProof,
        error_m: &ErrorMProof,
        ab: &ABProof,
        query: &QueryProof,
        f: &FProof,
    ) -> (r: Accumulated)
        requires
            left.of_rank(self.spec_rank()),
            right.of_rank(self.spec_rank()),
            s_prime.registry_wx0.spec_poly().spec_rank() == self.spec_rank(),
            s_prime.registry_wx1.spec_poly().spec_rank() == self.spec_rank(),
            error_m.registry_wy.spec_poly().spec_rank() == self.spec_rank(),
            ab.a.spec_poly().spec_rank() == self.spec_rank(),
            ab.b.spec_poly().spec_rank() == self.spec_rank(),
            query.registry_xy.spec_poly().spec_rank() == self.spec_rank(),
            f.poly.spec_poly().spec_rank() == self.spec_rank(),
        ensures
            r.poly.spec_poly().spec_rank() == self.spec_rank(),
            r.poly.spec_poly()@ == accumulated_poly(
                f.poly.spec_poly()@,
                accumulation_order(left, right, s_prime, error_m, ab, query),
                beta@,
            ),
            r.poly.spec_blind() == accumulated_blind(
                f.poly.spec_blind(),
                accumulation_order(left, right, s_prime, error_m, ab, query),
                beta@,
            ),
            r.poly.consistent(self.spec_generators()),
            r.v@ == eval_spec(r.poly.spec_poly()@, u@),
            r.v@ == horner_spec(
                beta@,
                seq![eval_spec(f.poly.spec_poly()@, u@)] + evaluations(
                    polys_of(accumulation_order(left, right, s_prime, error_m, ab, query)),
                    u@,
                ),
            ),
            crate::curve::points(r.points@) == seq![f.poly.spec_commitment()] + commitments_of(
                accumulation_order(left, right, s_prime, error_m, ab, query),
            ),
    {
        compute_p(
            self.generators(),
            self.rank(),
            beta,
            u,
            left,
            right,
            s_prime,
            error_m,
            ab,
            query,
            f,
        )
    }
}

} // verus!
