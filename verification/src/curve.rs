//! Points of the host curve, in which polynomials over the circuit field are
//! committed, with the group law of `pasta_curves` behind stated contracts.
//!
//! A [`Point`] holds the canonical encodings of its affine coordinates, which
//! are elements of the curve's base field; the point at infinity is held as
//! `(0, 0)`. What addition returns is named, not spelled out: [`curve_sum`]
//! stands for the coordinates that addition of the outside crate yields.
//! A multiple of a point is the point added to itself so many times,
//! [`curve_multiple`].
//!
//! Nothing is assumed of the name but that it is a function of its
//! arguments. That commitments are additively homomorphic is therefore
//! proved here from the laws of a group of prime order, stated as the
//! hypothesis [`group_laws`], and not of the outside curve itself: from
//! them follow the laws of a module over the circuit field,
//! [`module_laws`], and from those the homomorphism.
//!
//! The functions at the end of this module call into `pasta_curves`. The
//! coordinates that they decode are those of a point of the curve by the
//! invariant of [`Point`], so that the decoding cannot fail.

use crate::field::fadd;
use crate::field::fmul;
use crate::field::le_value;
use crate::field::lemma_le_value_zero;
use crate::field::modulus;
use crate::field::lemma_le_value_injective;
use crate::field::Scalar;
use crate::polynomials::scale_spec;
use crate::polynomials::sum_spec;
use ff::PrimeField;
use pasta_curves::arithmetic::Coordinates;
use pasta_curves::arithmetic::CurveAffine;
use group::Curve;
use pasta_curves::vesta::Affine;
use pasta_curves::Fp;
use pasta_curves::Fq;
use vstd::prelude::*;

verus! {

/// The prime `q`, the order of the base field of the host curve.
pub open spec fn base_modulus() -> nat {
    0x40000000000000000000000000000000224698fc0994a8dd8c46eb2100000001nat
}

/// Whether `(x, y)` are the coordinates of a point of the host curve
/// `y^2 = x^3 + 5`, or `(0, 0)`, which stands for the point at infinity.
pub open spec fn on_curve(p: (nat, nat)) -> bool {
    &&& p.0 < base_modulus()
    &&& p.1 < base_modulus()
    &&& (p == (0nat, 0nat) || (p.1 * p.1) % base_modulus() == (p.0 * p.0 * p.0 + 5)
        % base_modulus())
}

/// The coordinates of the sum of two points of the host curve.
pub uninterp spec fn curve_sum(a: (nat, nat), b: (nat, nat)) -> (nat, nat);

/// The coordinates of the point `p` multiplied by `k`: the point at
/// infinity with `p` added to it `k` times.
#[verifier::opaque]
pub open spec fn curve_multiple(p: (nat, nat), k: nat) -> (nat, nat)
    decreases k,
{
    if k == 0 {
        (0nat, 0nat)
    } else {
        curve_sum(curve_multiple(p, (k - 1) as nat), p)
    }
}

/// The Pedersen commitment to the first `m` coefficients under the blinding
/// factor `blind`: `blind * h`, then `coeffs[i] * g[i]` added for `i` from 0
/// up.
pub open spec fn commit_upto(
    coeffs: Seq<nat>,
    blind: nat,
    g: Seq<(nat, nat)>,
    h: (nat, nat),
    m: nat,
) -> (nat, nat)
    decreases m,
{
    if m == 0 {
        curve_multiple(h, blind)
    } else {
        curve_sum(
            commit_upto(coeffs, blind, g, h, (m - 1) as nat),
            curve_multiple(g[m - 1], coeffs[m - 1]),
        )
    }
}

/// The Pedersen commitment `blind * h + sum of coeffs[i] * g[i]`.
pub open spec fn commit_spec(coeffs: Seq<nat>, blind: nat, g: Seq<(nat, nat)>, h: (nat, nat)) -> (
    nat,
    nat,
) {
    commit_upto(coeffs, blind, g, h, coeffs.len())
}

/// Whether the named sum is that of a group whose order is the order of
/// the circuit field: the sum of points of the curve is a point of the
/// curve, it is commutative and associative, the point at infinity added
/// to a point leaves it as it is, and a point added to itself as many times
/// as the circuit field has elements is the point at infinity. The curve of
/// the outside crate is such a group; to the verifier its sum is a name.
pub open spec fn group_laws() -> bool {
    &&& forall|a: (nat, nat), b: (nat, nat)|
        on_curve(a) && on_curve(b) ==> on_curve(#[trigger] curve_sum(a, b)) && curve_sum(a, b)
            == curve_sum(b, a)
    &&& forall|a: (nat, nat), b: (nat, nat), c: (nat, nat)|
        on_curve(a) && on_curve(b) && on_curve(c) ==> #[trigger] curve_sum(curve_sum(a, b), c)
            == curve_sum(a, curve_sum(b, c))
    &&& forall|a: (nat, nat)| on_curve(a) ==> #[trigger] curve_sum(a, (0nat, 0nat)) == a
    &&& forall|a: (nat, nat)|
        on_curve(a) ==> #[trigger] curve_multiple(a, modulus()) == (0nat, 0nat)
}

/// In a group, a multiple of a point of the curve is a point of the curve.
proof fn lemma_multiple_on_curve(a: (nat, nat), k: nat)
    requires
        group_laws(),
        on_curve(a),
    ensures
        on_curve(curve_multiple(a, k)),
    decreases k,
{
    reveal_with_fuel(curve_multiple, 2);
    if k > 0 {
        lemma_multiple_on_curve(a, (k - 1) as nat);
    }
}

/// In a group, every multiple of the point at infinity is the point at
/// infinity.
proof fn lemma_multiple_of_infinity(k: nat)
    requires
        group_laws(),
    ensures
        curve_multiple((0nat, 0nat), k) == (0nat, 0nat),
    decreases k,
{
    reveal_with_fuel(curve_multiple, 2);
    if k > 0 {
        lemma_multiple_of_infinity((k - 1) as nat);
        assert(on_curve((0nat, 0nat)));
    }
}

/// A multiple of a point is the multiple before it with the point added.
proof fn lemma_multiple_step(a: (nat, nat), k: nat)
    requires
        k > 0,
    ensures
        curve_multiple(a, k) == curve_sum(curve_multiple(a, (k - 1) as nat), a),
        curve_multiple(a, 0) == (0nat, 0nat),
{
    reveal_with_fuel(curve_multiple, 2);
}

/// In a group, a multiple of a sum is the sum of the multiples.
proof fn lemma_multiple_of_sum(a: (nat, nat), b: (nat, nat), k: nat)
    requires
        group_laws(),
        on_curve(a),
        on_curve(b),
    ensures
        curve_multiple(curve_sum(a, b), k) == curve_sum(
            curve_multiple(a, k),
            curve_multiple(b, k),
        ),
    decreases k,
{
    if k == 0 {
        lemma_multiple_step(a, 1);
        lemma_multiple_step(b, 1);
        lemma_multiple_step(curve_sum(a, b), 1);
        assert(on_curve((0nat, 0nat)));
    } else {
        let j = (k - 1) as nat;
        lemma_multiple_of_sum(a, b, j);
        lemma_multiple_on_curve(a, j);
        lemma_multiple_on_curve(b, j);
        lemma_multiple_step(a, k);
        lemma_multiple_step(b, k);
        lemma_multiple_step(curve_sum(a, b), k);
        lemma_sum_swap4(curve_multiple(a, j), curve_multiple(b, j), a, b);
    }
}

/// In a group, the multiple by a sum of numbers is the sum of the
/// multiples.
proof fn lemma_multiple_by_sum(a: (nat, nat), j: nat, k: nat)
    requires
        group_laws(),
        on_curve(a),
    ensures
        curve_multiple(a, j + k) == curve_sum(curve_multiple(a, j), curve_multiple(a, k)),
    decreases k,
{
    reveal_with_fuel(curve_multiple, 2);
    lemma_multiple_on_curve(a, j);
    if k > 0 {
        let i = (k - 1) as nat;
        lemma_multiple_by_sum(a, j, i);
        lemma_multiple_on_curve(a, i);
        assert(curve_multiple(a, j + k) == curve_sum(curve_multiple(a, j + i), a));
    }
}

/// In a group, a multiple of a multiple is the multiple by the product.
proof fn lemma_multiple_of_multiple(a: (nat, nat), j: nat, k: nat)
    requires
        group_laws(),
        on_curve(a),
    ensures
        curve_multiple(curve_multiple(a, j), k) == curve_multiple(a, j * k),
    decreases k,
{
    reveal_with_fuel(curve_multiple, 2);
    if k == 0 {
        assert(j * k == 0) by (nonlinear_arith)
            requires
                k == 0,
        ;
    } else {
        let i = (k - 1) as nat;
        lemma_multiple_of_multiple(a, j, i);
        lemma_multiple_by_sum(a, j * i, j);
        assert(j * i + j == j * k) by (nonlinear_arith)
            requires
                i == k - 1,
        ;
    }
}

/// In a group of the order of the circuit field, the multiple by a number
/// is the multiple by its residue.
proof fn lemma_multiple_by_residue(a: (nat, nat), k: nat)
    requires
        group_laws(),
        on_curve(a),
    ensures
        curve_multiple(a, k % modulus()) == curve_multiple(a, k),
{
    let p = modulus();
    let t = k / p;
    let r = k % p;
    assert(k == p * t + r) by {
        vstd::arithmetic::div_mod::lemma_fundamental_div_mod(k as int, p as int);
    }
    lemma_multiple_by_sum(a, p * t, r);
    lemma_multiple_of_multiple(a, p, t);
    lemma_multiple_of_infinity(t);
    lemma_multiple_on_curve(a, r);
    assert(on_curve((0nat, 0nat)));
}

/// A group of the order of the circuit field is a module over that field.
pub proof fn lemma_group_is_module()
    requires
        group_laws(),
    ensures
        module_laws(),
{
    assert forall|a: (nat, nat), k: nat| on_curve(a) implies on_curve(
        #[trigger] curve_multiple(a, k),
    ) by {
        lemma_multiple_on_curve(a, k);
    }
    assert forall|a: (nat, nat), b: (nat, nat), k: nat| on_curve(a) && on_curve(b) implies (
    #[trigger] curve_multiple(curve_sum(a, b), k)) == curve_sum(
        curve_multiple(a, k),
        curve_multiple(b, k),
    ) by {
        lemma_multiple_of_sum(a, b, k);
    }
    assert forall|a: (nat, nat), j: nat, k: nat| on_curve(a) implies (#[trigger] curve_multiple(
        a,
        fadd(j, k),
    )) == curve_sum(curve_multiple(a, j), curve_multiple(a, k)) by {
        lemma_multiple_by_residue(a, j + k);
        lemma_multiple_by_sum(a, j, k);
    }
    assert forall|a: (nat, nat), j: nat, k: nat| on_curve(a) implies (#[trigger] curve_multiple(
        curve_multiple(a, j),
        k,
    )) == curve_multiple(a, fmul(j, k)) by {
        lemma_multiple_of_multiple(a, j, k);
        lemma_multiple_by_residue(a, j * k);
    }
}

/// In a group, a sum of two sums may be regrouped.
proof fn lemma_sum_swap4(a: (nat, nat), b: (nat, nat), c: (nat, nat), d: (nat, nat))
    requires
        group_laws(),
        on_curve(a),
        on_curve(b),
        on_curve(c),
        on_curve(d),
    ensures
        curve_sum(curve_sum(a, b), curve_sum(c, d)) == curve_sum(
            curve_sum(a, c),
            curve_sum(b, d),
        ),
{
    let ab = curve_sum(a, b);
    let cd = curve_sum(c, d);
    let ac = curve_sum(a, c);
    let bd = curve_sum(b, d);
    assert(on_curve(ab) && on_curve(cd) && on_curve(ac) && on_curve(bd));
    assert(curve_sum(curve_sum(a, b), cd) == curve_sum(a, curve_sum(b, cd)));
    assert(curve_sum(curve_sum(b, c), d) == curve_sum(b, cd));
    assert(curve_sum(b, c) == curve_sum(c, b));
    assert(curve_sum(curve_sum(c, b), d) == curve_sum(c, bd));
    assert(curve_sum(curve_sum(a, c), bd) == curve_sum(a, curve_sum(c, bd)));
}

/// Whether the points of the curve are a module over the circuit field:
/// the sum of points of the curve is a point of the curve, it is
/// commutative and associative, and multiplication by scalars distributes
/// over the sums of points and of scalars and composes by the product of
/// scalars. This follows from [`group_laws`], by
/// [`lemma_group_is_module`].
pub open spec fn module_laws() -> bool {
    &&& forall|a: (nat, nat), b: (nat, nat)|
        on_curve(a) && on_curve(b) ==> on_curve(#[trigger] curve_sum(a, b)) && curve_sum(a, b)
            == curve_sum(b, a)
    &&& forall|a: (nat, nat), b: (nat, nat), c: (nat, nat)|
        on_curve(a) && on_curve(b) && on_curve(c) ==> #[trigger] curve_sum(curve_sum(a, b), c)
            == curve_sum(a, curve_sum(b, c))
    &&& forall|a: (nat, nat), k: nat| on_curve(a) ==> on_curve(#[trigger] curve_multiple(a, k))
    &&& forall|a: (nat, nat), b: (nat, nat), k: nat|
        on_curve(a) && on_curve(b) ==> #[trigger] curve_multiple(curve_sum(a, b), k)
            == curve_sum(curve_multiple(a, k), curve_multiple(b, k))
    &&& forall|a: (nat, nat), j: nat, k: nat|
        on_curve(a) ==> #[trigger] curve_multiple(a, fadd(j, k)) == curve_sum(
            curve_multiple(a, j),
            curve_multiple(a, k),
        )
    &&& forall|a: (nat, nat), j: nat, k: nat|
        on_curve(a) ==> #[trigger] curve_multiple(curve_multiple(a, j), k) == curve_multiple(
            a,
            fmul(j, k),
        )
}

/// Whether the generators are points of the curve, enough of them for `len`
/// coefficients.
pub open spec fn generators_on_curve(g: Seq<(nat, nat)>, h: (nat, nat), len: nat) -> bool {
    &&& len <= g.len()
    &&& on_curve(h)
    &&& forall|i: int| 0 <= i < len ==> on_curve(#[trigger] g[i])
}

/// In a group, a commitment is a point of the curve.
pub proof fn lemma_commit_on_curve(
    coeffs: Seq<nat>,
    blind: nat,
    g: Seq<(nat, nat)>,
    h: (nat, nat),
    m: nat,
)
    requires
        group_laws(),
        generators_on_curve(g, h, m),
    ensures
        on_curve(commit_upto(coeffs, blind, g, h, m)),
    decreases m,
{
    lemma_group_is_module();
    if m > 0 {
        lemma_commit_on_curve(coeffs, blind, g, h, (m - 1) as nat);
        assert(on_curve(g[m - 1]));
        assert(on_curve(curve_multiple(g[m - 1], coeffs[m - 1])));
    } else {
        assert(on_curve(curve_multiple(h, blind)));
    }
}

/// In a group of the order of the circuit field, commitments are
/// additively homomorphic: the commitment to `beta * A + B` under the
/// blinding factor `beta * r_A + r_B` is `beta` times the commitment to `A`
/// under `r_A`, plus the commitment to `B` under `r_B`. This holds of the
/// first `m` coefficients, for every `m`.
pub proof fn lemma_commit_is_homomorphic_upto(
    a: Seq<nat>,
    b: Seq<nat>,
    blind_a: nat,
    blind_b: nat,
    beta: nat,
    g: Seq<(nat, nat)>,
    h: (nat, nat),
    m: nat,
)
    requires
        group_laws(),
        generators_on_curve(g, h, m),
        m <= a.len(),
        a.len() == b.len(),
    ensures
        commit_upto(
            sum_spec(scale_spec(a, beta), b),
            fadd(fmul(beta, blind_a), blind_b),
            g,
            h,
            m,
        ) == curve_sum(
            curve_multiple(commit_upto(a, blind_a, g, h, m), beta),
            commit_upto(b, blind_b, g, h, m),
        ),
    decreases m,
{
    lemma_group_is_module();
    let combined = sum_spec(scale_spec(a, beta), b);
    let blind = fadd(fmul(beta, blind_a), blind_b);
    if m == 0 {
        crate::algebra::lemma_fmul_comm(beta, blind_a);
        assert(curve_multiple(h, fadd(fmul(blind_a, beta), blind_b)) == curve_sum(
            curve_multiple(h, fmul(blind_a, beta)),
            curve_multiple(h, blind_b),
        ));
        assert(curve_multiple(curve_multiple(h, blind_a), beta) == curve_multiple(
            h,
            fmul(blind_a, beta),
        ));
    } else {
        let k = (m - 1) as nat;
        lemma_commit_is_homomorphic_upto(a, b, blind_a, blind_b, beta, g, h, k);
        lemma_commit_on_curve(a, blind_a, g, h, k);
        lemma_commit_on_curve(b, blind_b, g, h, k);
        let gk = g[k as int];
        assert(on_curve(gk));
        let ca = commit_upto(a, blind_a, g, h, k);
        let cb = commit_upto(b, blind_b, g, h, k);
        let ga = curve_multiple(gk, a[k as int]);
        let gb = curve_multiple(gk, b[k as int]);
        assert(on_curve(ga) && on_curve(gb));
        assert(on_curve(curve_multiple(ca, beta)) && on_curve(curve_multiple(ga, beta)));
        assert(combined[k as int] == fadd(fmul(a[k as int], beta), b[k as int]));
        assert(curve_multiple(gk, fadd(fmul(a[k as int], beta), b[k as int])) == curve_sum(
            curve_multiple(gk, fmul(a[k as int], beta)),
            gb,
        ));
        assert(curve_multiple(ga, beta) == curve_multiple(gk, fmul(a[k as int], beta)));
        assert(curve_multiple(curve_sum(ca, ga), beta) == curve_sum(
            curve_multiple(ca, beta),
            curve_multiple(ga, beta),
        ));
        lemma_sum_swap4(curve_multiple(ca, beta), cb, curve_multiple(ga, beta), gb);
    }
}

/// In a group of the order of the circuit field, commitments are
/// additively homomorphic: `commit(beta * A + B, beta * r_A + r_B) = beta *
/// commit(A, r_A) + commit(B, r_B)`.
pub proof fn lemma_commit_is_homomorphic(
    a: Seq<nat>,
    b: Seq<nat>,
    blind_a: nat,
    blind_b: nat,
    beta: nat,
    g: Seq<(nat, nat)>,
    h: (nat, nat),
)
    requires
        group_laws(),
        generators_on_curve(g, h, a.len()),
        a.len() == b.len(),
    ensures
        commit_spec(sum_spec(scale_spec(a, beta), b), fadd(fmul(beta, blind_a), blind_b), g, h)
            == curve_sum(
            curve_multiple(commit_spec(a, blind_a, g, h), beta),
            commit_spec(b, blind_b, g, h),
        ),
{
    lemma_commit_is_homomorphic_upto(a, b, blind_a, blind_b, beta, g, h, a.len());
}

/// A point of the host curve.
#[derive(Clone, Copy, Debug)]
pub struct Point {
    x: [u8; 32],
    y: [u8; 32],
}

impl View for Point {
    type V = (nat, nat);

    closed spec fn view(&self) -> (nat, nat) {
        (le_value(self.x@), le_value(self.y@))
    }
}

impl Point {
    #[verifier::type_invariant]
    spec fn valid(self) -> bool {
        on_curve((le_value(self.x@), le_value(self.y@)))
    }

    /// The point at infinity, the identity of the group.
    pub fn identity() -> (r: Point)
        ensures
            r@ == (0nat, 0nat),
    {
        let zero: [u8; 32] = [0u8; 32];
        proof {
            lemma_le_value_zero(zero@);
        }
        Point { x: zero, y: zero }
    }

    /// The point with the given coordinates, each in its canonical
    /// little-endian encoding, if there is one.
    pub fn from_xy(x: [u8; 32], y: [u8; 32]) -> (r: Option<Point>)
        ensures
            r is Some <==> on_curve((le_value(x@), le_value(y@))),
            r matches Some(p) ==> p@ == (le_value(x@), le_value(y@)),
    {
        vesta_from_xy(x, y)
    }

    /// The canonical encoding of the first coordinate.
    pub fn x(&self) -> (r: [u8; 32])
        ensures
            le_value(r@) == self@.0,
    {
        self.x
    }

    /// The canonical encoding of the second coordinate.
    pub fn y(&self) -> (r: [u8; 32])
        ensures
            le_value(r@) == self@.1,
    {
        self.y
    }

    /// Every point satisfies the curve equation.
    pub fn is_on_curve(&self)
        ensures
            on_curve(self@),
    {
        proof {
            use_type_invariant(self);
        }
    }

    /// The sum of two points.
    pub fn add(&self, other: &Point) -> (r: Point)
        ensures
            r@ == curve_sum(self@, other@),
    {
        vesta_add(self, other)
    }

    /// The point multiplied by a scalar.
    pub fn mul(&self, k: &Scalar) -> (r: Point)
        ensures
            r@ == curve_multiple(self@, k@),
    {
        vesta_mul(self, k)
    }

    /// Whether two points are the same point.
    pub fn equals(&self, other: &Point) -> (r: bool)
        ensures
            r == (self@ == other@),
    {
        let same_x = same_bytes(&self.x, &other.x);
        let same_y = same_bytes(&self.y, &other.y);
        proof {
            if self@ == other@ {
                lemma_le_value_injective(self.x@, other.x@);
                lemma_le_value_injective(self.y@, other.y@);
            }
        }
        same_x && same_y
    }
}

/// Whether two encodings agree byte for byte.
fn same_bytes(a: &[u8; 32], b: &[u8; 32]) -> (r: bool)
    ensures
        r == (a@ == b@),
{
    let mut i: usize = 0;
    while i < 32
        invariant
            i <= 32,
            forall|j: int| 0 <= j < i ==> a@[j] == b@[j],
        decreases 32 - i,
    {
        if a[i] != b[i] {
            return false;
        }
        i += 1;
    }
    assert(a@ =~= b@);
    true
}

/// The generators of a Pedersen commitment: one point for each coefficient
/// and one for the blinding factor.
#[derive(Clone, Debug)]
pub struct Generators {
    g: Vec<Point>,
    h: Point,
}

impl Generators {
    /// The generators `g` for the coefficients and `h` for the blinding
    /// factor.
    pub fn new(g: Vec<Point>, h: Point) -> (r: Generators)
        ensures
            r.g() == points(g@),
            r.h() == h@,
            generators_on_curve(r.g(), r.h(), r.g().len()),
    {
        let r = Generators { g, h };
        r.are_on_curve();
        r
    }

    /// The coordinates of the generators for the coefficients.
    pub closed spec fn g(&self) -> Seq<(nat, nat)> {
        points(self.g@)
    }

    /// The coordinates of the generator for the blinding factor.
    pub closed spec fn h(&self) -> (nat, nat) {
        self.h@
    }

    /// Every generator satisfies the curve equation: what the laws of
    /// commitments ask of the generators holds of these.
    pub fn are_on_curve(&self)
        ensures
            generators_on_curve(self.g(), self.h(), self.g().len()),
    {
        self.h.is_on_curve();
        let mut i: usize = 0;
        while i < self.g.len()
            invariant
                i <= self.g@.len(),
                forall|k: int| 0 <= k < i ==> on_curve(#[trigger] self.g()[k]),
            decreases self.g@.len() - i,
        {
            self.g[i].is_on_curve();
            i += 1;
        }
    }

    /// The number of coefficients that can be committed to.
    pub fn len(&self) -> (r: usize)
        ensures
            r == self.g().len(),
    {
        self.g.len()
    }

    /// The Pedersen commitment to `coeffs` under `blind`.
    pub fn commit(&self, coeffs: &Vec<Scalar>, blind: &Scalar) -> (r: Point)
        requires
            coeffs@.len() <= self.g().len(),
        ensures
            r@ == commit_spec(crate::polynomials::values(coeffs@), blind@, self.g(), self.h()),
    {
        let ghost c = crate::polynomials::values(coeffs@);
        let mut acc = self.h.mul(blind);
        let mut i: usize = 0;
        while i < coeffs.len()
            invariant
                i <= coeffs@.len() <= self.g@.len(),
                c == crate::polynomials::values(coeffs@),
                acc@ == commit_upto(c, blind@, self.g(), self.h(), i as nat),
            decreases coeffs@.len() - i,
        {
            acc = acc.add(&self.g[i].mul(&coeffs[i]));
            i += 1;
        }
        acc
    }
}

/// The coordinates of a vector of points.
pub open spec fn points(v: Seq<Point>) -> Seq<(nat, nat)> {
    Seq::new(v.len(), |i: int| v[i]@)
}

/// `CurveAffine::from_xy` on the curve Vesta, after `PrimeField::from_repr`
/// on each coordinate: a point comes back exactly when both encodings are
/// canonical and the coordinates satisfy the curve equation or are both
/// zero, and it has those coordinates.
#[verifier::external_body]
fn vesta_from_xy(x: [u8; 32], y: [u8; 32]) -> (r: Option<Point>)
    ensures
        r is Some <==> on_curve((le_value(x@), le_value(y@))),
        r matches Some(p) ==> p@ == (le_value(x@), le_value(y@)),
{
    let fx = Option::<Fq>::from(Fq::from_repr(x))?;
    let fy = Option::<Fq>::from(Fq::from_repr(y))?;
    Option::<Affine>::from(Affine::from_xy(fx, fy)).map(|_p: Affine| Point { x, y })
}

/// Addition of two points of Vesta; the coordinates of the sum are a
/// function of the coordinates of the two points, named [`curve_sum`].
#[verifier::external_body]
fn vesta_add(a: &Point, b: &Point) -> (r: Point)
    ensures
        r@ == curve_sum(a@, b@),
{
    let p = Affine::from_xy(Fq::from_repr(a.x).unwrap(), Fq::from_repr(a.y).unwrap()).unwrap();
    let q = Affine::from_xy(Fq::from_repr(b.x).unwrap(), Fq::from_repr(b.y).unwrap()).unwrap();
    let c = (p + q).to_affine().coordinates().unwrap_or(Coordinates::default());
    Point { x: c.x().to_repr(), y: c.y().to_repr() }
}

/// Multiplication of a point of Vesta by an element of its scalar field,
/// which is the circuit field: the product is the point added to itself as
/// many times as the scalar says, by the addition of the outside crate,
/// which is [`curve_multiple`].
#[verifier::external_body]
fn vesta_mul(p: &Point, k: &Scalar) -> (r: Point)
    ensures
        r@ == curve_multiple(p@, k@),
{
    let q = Affine::from_xy(Fq::from_repr(p.x).unwrap(), Fq::from_repr(p.y).unwrap()).unwrap();
    let c = (q * Fp::from_repr(k.bytes).unwrap()).to_affine().coordinates().unwrap_or(
        Coordinates::default(),
    );
    Point { x: c.x().to_repr(), y: c.y().to_repr() }
}

} // verus!
