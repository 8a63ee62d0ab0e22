//! A polynomial together with its blinding factor and its commitment.

use crate::curve::commit_spec;
use crate::curve::Generators;
use crate::curve::Point;
use crate::field::Scalar;
use crate::polynomials::structured;
use crate::polynomials::unstructured;
use crate::polynomials::Rank;
use rand::rngs::StdRng;
use vstd::prelude::*;

verus! {

/// A polynomial that can be committed to.
pub trait Committable: Sized {
    /// The coefficients of the polynomial, lowest degree first.
    spec fn coefficients(&self) -> Seq<nat>;

    /// The rank of the polynomial.
    spec fn rank_of(&self) -> Rank;

    /// Commits to the polynomial under the given blinding factor.
    fn commit_with_blind(&self, generators: &Generators, blind: Scalar) -> (r: CommittedPolynomial<
        Self,
    >)
        requires
            self.coefficients().len() <= generators.g().len(),
        ensures
            r.spec_poly().coefficients() == self.coefficients(),
            r.spec_poly().rank_of() == self.rank_of(),
            r.spec_blind() == blind@,
            r.spec_commitment() == commit_spec(
                self.coefficients(),
                blind@,
                generators.g(),
                generators.h(),
            ),
    ;

    /// Commits to the polynomial under a blinding factor drawn from `rng`.
    fn commit(&self, generators: &Generators, rng: &mut StdRng) -> (r: CommittedPolynomial<Self>)
        requires
            self.coefficients().len() <= generators.g().len(),
        ensures
            r.spec_poly().coefficients() == self.coefficients(),
            r.spec_poly().rank_of() == self.rank_of(),
            r.commits_to(self.coefficients(), generators),
    {
        let blind = Scalar::random(rng);
        self.commit_with_blind(generators, blind)
    }
}

impl Committable for structured::Polynomial {
    open spec fn coefficients(&self) -> Seq<nat> {
        self@
    }

    open spec fn rank_of(&self) -> Rank {
        self.spec_rank()
    }

    fn commit_with_blind(&self, generators: &Generators, blind: Scalar) -> (r: CommittedPolynomial<
        Self,
    >) {
        let commitment = generators.commit(self.dense(), &blind);
        CommittedPolynomial { poly: self.duplicate(), blind, commitment }
    }
}

impl Committable for unstructured::Polynomial {
    open spec fn coefficients(&self) -> Seq<nat> {
        self@
    }

    open spec fn rank_of(&self) -> Rank {
        self.spec_rank()
    }

    fn commit_with_blind(&self, generators: &Generators, blind: Scalar) -> (r: CommittedPolynomial<
        Self,
    >) {
        let commitment = generators.commit(self.dense(), &blind);
        CommittedPolynomial { poly: self.duplicate(), blind, commitment }
    }
}

/// A polynomial, the blinding factor it was committed with, and the
/// commitment. Once made, the three are never changed.
#[derive(Clone, Debug)]
pub struct CommittedPolynomial<P> {
    poly: P,
    blind: Scalar,
    commitment: Point,
}

impl<P> CommittedPolynomial<P> {
    /// The polynomial.
    pub closed spec fn spec_poly(&self) -> P {
        self.poly
    }

    /// The blinding factor.
    pub closed spec fn spec_blind(&self) -> nat {
        self.blind@
    }

    /// The coordinates of the commitment.
    pub closed spec fn spec_commitment(&self) -> (nat, nat) {
        self.commitment@
    }

    /// The polynomial.
    pub fn poly(&self) -> (r: &P)
        ensures
            *r == self.spec_poly(),
    {
        &self.poly
    }

    /// The blinding factor used at commitment time.
    pub fn blind(&self) -> (r: Scalar)
        ensures
            r@ == self.spec_blind(),
    {
        self.blind
    }

    /// The commitment.
    pub fn commitment(&self) -> (r: Point)
        ensures
            r@ == self.spec_commitment(),
    {
        self.commitment
    }

    /// Whether the commitment is the Pedersen commitment to `coefficients`
    /// under the blinding factor held here and the given generators.
    pub open spec fn commits_to(&self, coefficients: Seq<nat>, generators: &Generators) -> bool {
        self.spec_commitment() == commit_spec(
            coefficients,
            self.spec_blind(),
            generators.g(),
            generators.h(),
        )
    }

    /// The triple as given; nothing is checked, and nothing is known of how
    /// the commitment relates to the polynomial and the blinding factor.
    pub fn new_unchecked(poly: P, blind: Scalar, commitment: Point) -> (r: Self)
        ensures
            r.spec_poly() == poly,
            r.spec_blind() == blind@,
            r.spec_commitment() == commitment@,
    {
        CommittedPolynomial { poly, blind, commitment }
    }
}

impl CommittedPolynomial<structured::Polynomial> {
    /// Whether the triple holds together: the commitment is computed anew
    /// from the polynomial and the blinding factor and compared with the
    /// one held. Generators too few for the polynomial verify nothing.
    pub fn verify(&self, generators: &Generators) -> (r: bool)
        ensures
            r == (self.spec_poly()@.len() <= generators.g().len() && self.consistent(generators)),
    {
        let coeffs = self.poly.dense();
        if coeffs.len() > generators.len() {
            return false;
        }
        let computed = generators.commit(coeffs, &self.blind);
        computed.equals(&self.commitment)
    }

    /// A copy of the triple.
    pub fn duplicate(&self) -> (r: Self)
        ensures
            r.spec_poly()@ == self.spec_poly()@,
            r.spec_poly().spec_rank() == self.spec_poly().spec_rank(),
            r.spec_blind() == self.spec_blind(),
            r.spec_commitment() == self.spec_commitment(),
    {
        CommittedPolynomial {
            poly: self.poly.duplicate(),
            blind: self.blind,
            commitment: self.commitment,
        }
    }
}

impl CommittedPolynomial<unstructured::Polynomial> {
    /// Whether the triple holds together: the commitment is computed anew
    /// from the polynomial and the blinding factor and compared with the
    /// one held. Generators too few for the polynomial verify nothing.
    pub fn verify(&self, generators: &Generators) -> (r: bool)
        ensures
            r == (self.spec_poly()@.len() <= generators.g().len() && self.consistent(generators)),
    {
        let coeffs = self.poly.dense();
        if coeffs.len() > generators.len() {
            return false;
        }
        let computed = generators.commit(coeffs, &self.blind);
        computed.equals(&self.commitment)
    }

    /// A copy of the triple.
    pub fn duplicate(&self) -> (r: Self)
        ensures
            r.spec_poly()@ == self.spec_poly()@,
            r.spec_poly().spec_rank() == self.spec_poly().spec_rank(),
            r.spec_blind() == self.spec_blind(),
            r.spec_commitment() == self.spec_commitment(),
    {
        CommittedPolynomial {
            poly: self.poly.duplicate(),
            blind: self.blind,
            commitment: self.commitment,
        }
    }
}

impl<P: Committable> CommittedPolynomial<P> {
    /// Whether the commitment is the Pedersen commitment to the polynomial
    /// under the blinding factor and the given generators.
    pub open spec fn consistent(&self, generators: &Generators) -> bool {
        self.commits_to(self.spec_poly().coefficients(), generators)
    }
}

/// A commitment is a function of the polynomial, the blinding factor and
/// the generators: two triples that open under the same generators and
/// agree in the polynomial and the blinding factor agree in the
/// commitment.
pub proof fn lemma_commitment_is_determined<P: Committable>(
    first: &CommittedPolynomial<P>,
    second: &CommittedPolynomial<P>,
    generators: &Generators,
)
    requires
        first.consistent(generators),
        second.consistent(generators),
        first.spec_poly().coefficients() == second.spec_poly().coefficients(),
        first.spec_blind() == second.spec_blind(),
    ensures
        first.spec_commitment() == second.spec_commitment(),
{
}

} // verus!
