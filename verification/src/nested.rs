//! What a proof holds of the nested curve.
//!
//! Every round commits to a second polynomial, over the scalar field of the
//! nested curve, that binds the commitments made on the host curve. Such a
//! polynomial and its blinding factor are held as encodings; the
//! commitment is a point whose coordinates are elements of the circuit
//! field and can therefore be absorbed into the transcript.
//!
//! The commitment is a Pedersen commitment like those of the host curve,
//! with the group law of `pasta_curves` behind stated contracts: what
//! addition returns is named, [`nested_sum`], and a multiple of a point is
//! the point added to itself so many times, [`nested_multiple`].

use crate::curve::base_modulus;
use crate::field::fadd;
use crate::field::fmul;
use crate::field::le_value;
use crate::field::lemma_le_value_zero;
use crate::field::modulus;
use crate::field::Scalar;
use ff::Field;
use ff::PrimeField;
use group::Curve;
use pasta_curves::arithmetic::Coordinates;
use pasta_curves::arithmetic::CurveAffine;
use pasta_curves::pallas::Affine;
use pasta_curves::Fp;
use pasta_curves::Fq;
use rand::rngs::StdRng;
use vstd::prelude::*;

verus! {

/// Whether `(x, y)` are the coordinates of a point of the nested curve
/// `y^2 = x^3 + 5` over the circuit field, or `(0, 0)`, which stands for the
/// point at infinity.
pub open spec fn on_nested_curve(p: (nat, nat)) -> bool {
    &&& p.0 < modulus()
    &&& p.1 < modulus()
    &&& (p == (0nat, 0nat) || fmul(p.1, p.1) == fadd(fmul(fmul(p.0, p.0), p.0), 5))
}

/// The coordinates of the sum of two points of the nested curve.
pub uninterp spec fn nested_sum(a: (nat, nat), b: (nat, nat)) -> (nat, nat);

/// The coordinates of the point `p` of the nested curve multiplied by `k`:
/// the point at infinity with `p` added to it `k` times.
#[verifier::opaque]
pub open spec fn nested_multiple(p: (nat, nat), k: nat) -> (nat, nat)
    decreases k,
{
    if k == 0 {
        (0nat, 0nat)
    } else {
        nested_sum(nested_multiple(p, (k - 1) as nat), p)
    }
}

/// The Pedersen commitment on the nested curve to the first `m`
/// coefficients under the blinding factor `blind`: `blind * h`, then
/// `coeffs[i] * g[i]` added for `i` from 0 up.
pub open spec fn nested_commit_upto(
    coeffs: Seq<nat>,
    blind: nat,
    g: Seq<(nat, nat)>,
    h: (nat, nat),
    m: nat,
) -> (nat, nat)
    decreases m,
{
    if m == 0 {
        nested_multiple(h, blind)
    } else {
        nested_sum(
            nested_commit_upto(coeffs, blind, g, h, (m - 1) as nat),
            nested_multiple(g[m - 1], coeffs[m - 1]),
        )
    }
}

/// The Pedersen commitment `blind * h + sum of coeffs[i] * g[i]` on the
/// nested curve.
pub open spec fn nested_commit_spec(
    coeffs: Seq<nat>,
    blind: nat,
    g: Seq<(nat, nat)>,
    h: (nat, nat),
) -> (nat, nat) {
    nested_commit_upto(coeffs, blind, g, h, coeffs.len())
}

/// A pair of elements of the circuit field that stands for a point of the
/// nested curve, by its affine coordinates; the point at infinity is held
/// as `(0, 0)`. Whether the pair lies on the curve is told by
/// [`NestedPoint::is_on_curve`].
#[derive(Clone, Copy, Debug)]
pub struct NestedPoint {
    /// The first coordinate.
    pub x: Scalar,
    /// The second coordinate.
    pub y: Scalar,
}

impl View for NestedPoint {
    type V = (nat, nat);

    open spec fn view(&self) -> (nat, nat) {
        (self.x@, self.y@)
    }
}

impl NestedPoint {
    /// The point with the given coordinates.
    pub fn new(x: Scalar, y: Scalar) -> (r: NestedPoint)
        ensures
            r@ == (x@, y@),
    {
        NestedPoint { x, y }
    }

    /// The point at infinity.
    pub fn identity() -> (r: NestedPoint)
        ensures
            r@ == (0nat, 0nat),
    {
        NestedPoint { x: Scalar::zero(), y: Scalar::zero() }
    }

    /// Whether two points have the same coordinates.
    pub fn equals(&self, other: &NestedPoint) -> (r: bool)
        ensures
            r == (self@ == other@),
    {
        self.x.equals(&other.x) && self.y.equals(&other.y)
    }

    /// Whether the coordinates satisfy the equation of the nested curve
    /// or are both zero.
    pub fn is_on_curve(&self) -> (r: bool)
        ensures
            r == on_nested_curve(self@),
    {
        self.x.in_range();
        self.y.in_range();
        if self.x.is_zero() && self.y.is_zero() {
            return true;
        }
        let five = Scalar::from_u64(5);
        let left = self.y.mul(&self.y);
        let right = self.x.mul(&self.x).mul(&self.x).add(&five);
        left.equals(&right)
    }
}

/// The encoding of an element of the nested curve's scalar field.
#[derive(Clone, Copy, Debug)]
pub struct NestedScalar {
    /// The little-endian encoding.
    pub bytes: [u8; 32],
}

impl View for NestedScalar {
    type V = nat;

    open spec fn view(&self) -> nat {
        le_value(self.bytes@)
    }
}

impl NestedScalar {
    /// Whether the encoding is canonical: the number it stands for is
    /// below the order of the field.
    pub open spec fn canonical(&self) -> bool {
        self@ < base_modulus()
    }

    /// The encoding of zero.
    pub fn zero() -> (r: NestedScalar)
        ensures
            r@ == 0,
            r.canonical(),
    {
        let bytes: [u8; 32] = [0u8; 32];
        proof {
            lemma_le_value_zero(bytes@);
        }
        NestedScalar { bytes }
    }

    /// The encoding of one.
    pub fn one() -> (r: NestedScalar)
        ensures
            r@ == 1,
            r.canonical(),
    {
        let mut bytes: [u8; 32] = [0u8; 32];
        bytes[0] = 1;
        proof {
            lemma_le_value_zero(bytes@.skip(1));
        }
        NestedScalar { bytes }
    }

    /// Whether the encoding is canonical.
    pub fn is_canonical(&self) -> (r: bool)
        ensures
            r == self.canonical(),
    {
        fq_is_canonical(&self.bytes)
    }

    /// Some element of the field, as `rng` gives it.
    pub fn random(rng: &mut StdRng) -> (r: NestedScalar)
        ensures
            r.canonical(),
    {
        fq_random(rng)
    }
}

/// The generators of a Pedersen commitment on the nested curve: one point
/// for each coefficient and one for the blinding factor.
#[derive(Debug)]
pub struct NestedGenerators {
    g: Vec<NestedPoint>,
    h: NestedPoint,
}

impl NestedGenerators {
    #[verifier::type_invariant]
    spec fn well_formed(self) -> bool {
        &&& on_nested_curve(self.h@)
        &&& forall|i: int| 0 <= i < self.g@.len() ==> on_nested_curve(#[trigger] self.g@[i]@)
    }

    /// The coordinates of the generators for the coefficients.
    pub closed spec fn g(&self) -> Seq<(nat, nat)> {
        Seq::new(self.g@.len(), |i: int| self.g@[i]@)
    }

    /// The coordinates of the generator for the blinding factor.
    pub closed spec fn h(&self) -> (nat, nat) {
        self.h@
    }

    /// The generators `g` for the coefficients and `h` for the blinding
    /// factor, if all of them are points of the nested curve.
    pub fn new(g: Vec<NestedPoint>, h: NestedPoint) -> (r: Option<NestedGenerators>)
        ensures
            r is Some <==> on_nested_curve(h@) && forall|i: int|
                0 <= i < g@.len() ==> on_nested_curve(#[trigger] g@[i]@),
            r matches Some(made) ==> made.h() == h@ && made.g() == Seq::new(
                g@.len(),
                |i: int| g@[i]@,
            ),
    {
        if !h.is_on_curve() {
            return None;
        }
        let mut i: usize = 0;
        while i < g.len()
            invariant
                i <= g@.len(),
                forall|k: int| 0 <= k < i ==> on_nested_curve(#[trigger] g@[k]@),
            decreases g@.len() - i,
        {
            if !g[i].is_on_curve() {
                return None;
            }
            i += 1;
        }
        Some(NestedGenerators { g, h })
    }

    /// The number of coefficients that can be committed to.
    pub fn len(&self) -> (r: usize)
        ensures
            r == self.g().len(),
    {
        self.g.len()
    }

    /// The Pedersen commitment to the polynomial under `blind`, where the
    /// generators suffice for it and every encoding is canonical; none
    /// else.
    pub fn commit(&self, poly: &NestedPolynomial, blind: &NestedScalar) -> (r: Option<NestedPoint>)
        ensures
            r is Some <==> poly.coeffs@.len() <= self.g().len() && poly.canonical()
                && blind.canonical(),
            r matches Some(point) ==> point@ == nested_commit_spec(
                poly@,
                blind@,
                self.g(),
                self.h(),
            ),
    {
        proof {
            use_type_invariant(self);
        }
        if poly.coeffs.len() > self.g.len() || !blind.is_canonical() {
            return None;
        }
        let mut acc = pallas_mul(&self.h, blind);
        let mut i: usize = 0;
        while i < poly.coeffs.len()
            invariant
                i <= poly.coeffs@.len() <= self.g@.len(),
                on_nested_curve(acc@),
                forall|k: int| 0 <= k < self.g@.len() ==> on_nested_curve(#[trigger] self.g@[k]@),
                forall|k: int| 0 <= k < i ==> (#[trigger] poly.coeffs@[k]).canonical(),
                acc@ == nested_commit_upto(poly@, blind@, self.g(), self.h(), i as nat),
            decreases poly.coeffs@.len() - i,
        {
            let c = &poly.coeffs[i];
            if !c.is_canonical() {
                return None;
            }
            let term = pallas_mul(&self.g[i], c);
            acc = pallas_add(&acc, &term);
            i += 1;
        }
        Some(acc)
    }
}

/// A polynomial over the nested curve's scalar field, by its coefficients,
/// lowest degree first.
#[derive(Clone, Debug)]
pub struct NestedPolynomial {
    /// The coefficients.
    pub coeffs: Vec<NestedScalar>,
}

impl View for NestedPolynomial {
    type V = Seq<nat>;

    open spec fn view(&self) -> Seq<nat> {
        Seq::new(self.coeffs@.len(), |i: int| self.coeffs@[i]@)
    }
}

impl NestedPolynomial {
    /// The zero polynomial of `len` coefficients.
    pub fn zero(len: usize) -> (r: NestedPolynomial)
        ensures
            r.coeffs@.len() == len,
            r@ == Seq::new(len as nat, |i: int| 0nat),
            r.canonical(),
    {
        let zero = NestedScalar::zero();
        let mut coeffs: Vec<NestedScalar> = Vec::new();
        let mut i: usize = 0;
        while i < len
            invariant
                i <= len,
                zero@ == 0,
                zero.canonical(),
                coeffs@.len() == i,
                forall|k: int| 0 <= k < i ==> coeffs@[k] == zero,
            decreases len - i,
        {
            coeffs.push(zero);
            i += 1;
        }
        let r = NestedPolynomial { coeffs };
        assert(r@ =~= Seq::new(len as nat, |i: int| 0nat));
        r
    }

    /// Whether every coefficient is canonically encoded.
    pub open spec fn canonical(&self) -> bool {
        forall|i: int| 0 <= i < self.coeffs@.len() ==> (#[trigger] self.coeffs@[i]).canonical()
    }

    /// Commits to the polynomial under the given blinding factor, where
    /// the generators suffice for it and every encoding is canonical.
    pub fn commit_with_blind(&self, generators: &NestedGenerators, blind: NestedScalar) -> (r:
        Option<NestedCommitted>)
        ensures
            r is Some <==> self.coeffs@.len() <= generators.g().len() && self.canonical()
                && blind.canonical(),
            r matches Some(made) ==> made.poly.coeffs@ == self.coeffs@ && made.blind == blind
                && made.consistent(generators),
    {
        match generators.commit(self, &blind) {
            Some(commitment) => Some(NestedCommitted { poly: self.duplicate(), blind, commitment }),
            None => None,
        }
    }

    /// Commits to the polynomial under a blinding factor drawn from `rng`,
    /// where the generators suffice for it and every coefficient is
    /// canonically encoded.
    pub fn commit(&self, generators: &NestedGenerators, rng: &mut StdRng) -> (r: Option<
        NestedCommitted,
    >)
        ensures
            r is Some <==> self.coeffs@.len() <= generators.g().len() && self.canonical(),
            r matches Some(made) ==> made.poly.coeffs@ == self.coeffs@ && made.consistent(
                generators,
            ),
    {
        let blind = NestedScalar::random(rng);
        self.commit_with_blind(generators, blind)
    }

    /// A copy of the polynomial.
    pub fn duplicate(&self) -> (r: NestedPolynomial)
        ensures
            r.coeffs@ == self.coeffs@,
    {
        let mut coeffs: Vec<NestedScalar> = Vec::new();
        let mut i: usize = 0;
        while i < self.coeffs.len()
            invariant
                i <= self.coeffs@.len(),
                coeffs@ == self.coeffs@.subrange(0, i as int),
            decreases self.coeffs@.len() - i,
        {
            coeffs.push(self.coeffs[i]);
            assert(coeffs@ =~= self.coeffs@.subrange(0, i + 1));
            i += 1;
        }
        assert(coeffs@ =~= self.coeffs@);
        NestedPolynomial { coeffs }
    }
}

/// A polynomial over the nested curve's scalar field with its blinding
/// factor and commitment, as its maker handed it over.
#[derive(Clone, Debug)]
pub struct NestedCommitted {
    /// The polynomial.
    pub poly: NestedPolynomial,
    /// The blinding factor.
    pub blind: NestedScalar,
    /// The commitment, a point of the nested curve.
    pub commitment: NestedPoint,
}

impl NestedCommitted {
    /// Whether the commitment is the Pedersen commitment to the polynomial
    /// under the blinding factor and the given generators, every encoding
    /// canonical.
    pub open spec fn consistent(&self, generators: &NestedGenerators) -> bool {
        &&& self.poly.coeffs@.len() <= generators.g().len()
        &&& self.poly.canonical()
        &&& self.blind.canonical()
        &&& self.commitment@ == nested_commit_spec(
            self.poly@,
            self.blind@,
            generators.g(),
            generators.h(),
        )
    }

    /// Whether the triple holds together: the commitment is computed anew
    /// from the polynomial and the blinding factor and compared with the
    /// one held.
    pub fn verify(&self, generators: &NestedGenerators) -> (r: bool)
        ensures
            r == self.consistent(generators),
    {
        match generators.commit(&self.poly, &self.blind) {
            Some(computed) => computed.equals(&self.commitment),
            None => false,
        }
    }

    /// A copy of the triple.
    pub fn duplicate(&self) -> (r: NestedCommitted)
        ensures
            r.poly.coeffs@ == self.poly.coeffs@,
            r.blind == self.blind,
            r.commitment == self.commitment,
    {
        NestedCommitted {
            poly: self.poly.duplicate(),
            blind: self.blind,
            commitment: self.commitment,
        }
    }
}

/// `PrimeField::from_repr` on the scalar field of the nested curve: it
/// accepts exactly the encodings of numbers below the order of that field.
#[verifier::external_body]
fn fq_is_canonical(bytes: &[u8; 32]) -> (r: bool)
    ensures
        r == (le_value(bytes@) < base_modulus()),
{
    bool::from(Fq::from_repr(*bytes).is_some())
}

/// `Field::random` on the scalar field of the nested curve, encoded by
/// `to_repr`: some element of the field, canonically encoded; which one
/// depends on the state of the generator.
#[verifier::external_body]
fn fq_random(rng: &mut StdRng) -> (r: NestedScalar)
    ensures
        le_value(r.bytes@) < base_modulus(),
{
    NestedScalar { bytes: Fq::random(rng).to_repr() }
}

/// Addition of two points of Pallas: the sum is a point of the curve, and
/// its coordinates are a function of the coordinates of the two points,
/// named [`nested_sum`].
#[verifier::external_body]
fn pallas_add(a: &NestedPoint, b: &NestedPoint) -> (r: NestedPoint)
    requires
        on_nested_curve(a@),
        on_nested_curve(b@),
    ensures
        r@ == nested_sum(a@, b@),
        on_nested_curve(r@),
{
    let p = Affine::from_xy(Fp::from_repr(a.x.bytes).unwrap(), Fp::from_repr(a.y.bytes).unwrap());
    let q = Affine::from_xy(Fp::from_repr(b.x.bytes).unwrap(), Fp::from_repr(b.y.bytes).unwrap());
    let c = (p.unwrap() + q.unwrap()).to_affine().coordinates().unwrap_or(Coordinates::default());
    NestedPoint { x: Scalar { bytes: c.x().to_repr() }, y: Scalar { bytes: c.y().to_repr() } }
}

/// Multiplication of a point of Pallas by an element of its scalar field:
/// the product is a point of the curve, the point added to itself as many
/// times as the scalar says, by the addition of the outside crate, which is
/// [`nested_multiple`].
#[verifier::external_body]
fn pallas_mul(p: &NestedPoint, k: &NestedScalar) -> (r: NestedPoint)
    requires
        on_nested_curve(p@),
        k.canonical(),
    ensures
        r@ == nested_multiple(p@, k@),
        on_nested_curve(r@),
{
    let q = Affine::from_xy(Fp::from_repr(p.x.bytes).unwrap(), Fp::from_repr(p.y.bytes).unwrap());
    let c = (q.unwrap() * Fq::from_repr(k.bytes).unwrap()).to_affine().coordinates().unwrap_or(
        Coordinates::default(),
    );
    NestedPoint { x: Scalar { bytes: c.x().to_repr() }, y: Scalar { bytes: c.y().to_repr() } }
}

} // verus!
