//! Elements of the circuit field, with the arithmetic of `pasta_curves::Fp`
//! behind stated contracts.
//!
//! A [`Scalar`] holds the canonical little-endian encoding of a field
//! element. Its view is the integer in `[0, p)` that the encoding stands for,
//! and every operation is specified as arithmetic modulo `p`.
//!
//! The functions at the end of this module call into `pasta_curves`. Each
//! decodes its arguments, calls one function of the outside crate, and
//! encodes what comes back. The encodings that they decode are canonical by
//! the invariant of [`Scalar`], so that the decoding cannot fail; what they
//! encode is canonical because the outside crate encodes canonically.

use ff::Field;
use ff::PrimeField;
use pasta_curves::Fp;
use rand::rngs::StdRng;
use vstd::prelude::*;

verus! {

/// The prime `p`, the order of the circuit field.
pub open spec fn modulus() -> nat {
    0x40000000000000000000000000000000224698fc094cf91b992d30ed00000001nat
}

/// The number that a little-endian byte string stands for.
pub open spec fn le_value(bytes: Seq<u8>) -> nat
    decreases bytes.len(),
{
    if bytes.len() == 0 {
        0
    } else {
        bytes[0] as nat + 256 * le_value(bytes.skip(1))
    }
}

/// Addition in the field.
pub open spec fn fadd(a: nat, b: nat) -> nat {
    (a + b) % modulus()
}

/// Subtraction in the field.
pub open spec fn fsub(a: nat, b: nat) -> nat {
    ((a - b) % (modulus() as int)) as nat
}

/// Multiplication in the field.
pub open spec fn fmul(a: nat, b: nat) -> nat {
    (a * b) % modulus()
}

/// Negation in the field.
pub open spec fn fneg(a: nat) -> nat {
    ((0 - a) % (modulus() as int)) as nat
}

/// `base` raised to `exp` in the field.
pub open spec fn fpow(base: nat, exp: nat) -> nat
    decreases exp,
{
    if exp == 0 {
        1
    } else {
        fmul(base, fpow(base, (exp - 1) as nat))
    }
}

/// The multiplicative inverse of `a` in the field, where `a` has one.
pub open spec fn finv(a: nat) -> nat {
    choose|r: nat| r < modulus() && fmul(r, a) == 1
}

/// An element has at most one inverse.
pub proof fn lemma_inverse_unique(a: nat, r: nat)
    requires
        r < modulus(),
        fmul(r, a) == 1,
    ensures
        r == finv(a),
{
    let s = finv(a);
    assert(s < modulus() && fmul(s, a) == 1);
    // r * (a * s) == (r * a) * s, and both inner products are one.
    crate::algebra::lemma_fmul_assoc(r, a, s);
    crate::algebra::lemma_fmul_comm(a, s);
    crate::algebra::lemma_fmul_one(r);
    crate::algebra::lemma_fmul_one(s);
    crate::algebra::lemma_reduced(r);
    crate::algebra::lemma_reduced(s);
}

/// A byte string of zeros stands for zero.
pub proof fn lemma_le_value_zero(bytes: Seq<u8>)
    requires
        forall|i: int| 0 <= i < bytes.len() ==> bytes[i] == 0,
    ensures
        le_value(bytes) == 0,
    decreases bytes.len(),
{
    if bytes.len() > 0 {
        lemma_le_value_zero(bytes.skip(1));
    }
}

/// Two byte strings of one length that stand for the same number are equal.
pub proof fn lemma_le_value_injective(a: Seq<u8>, b: Seq<u8>)
    requires
        a.len() == b.len(),
        le_value(a) == le_value(b),
    ensures
        a == b,
    decreases a.len(),
{
    if a.len() > 0 {
        let ta = le_value(a.skip(1));
        let tb = le_value(b.skip(1));
        assert(a[0] as nat + 256 * ta == b[0] as nat + 256 * tb);
        assert(ta == tb && a[0] == b[0]);
        lemma_le_value_injective(a.skip(1), b.skip(1));
        assert forall|i: int| 0 <= i < a.len() implies a[i] == b[i] by {
            if i > 0 {
                assert(a[i] == a.skip(1)[i - 1]);
                assert(b[i] == b.skip(1)[i - 1]);
            }
        }
    }
    assert(a =~= b);
}

/// An element of the circuit field.
#[derive(Clone, Copy, Debug)]
pub struct Scalar {
    pub(crate) bytes: [u8; 32],
}

impl View for Scalar {
    type V = nat;

    closed spec fn view(&self) -> nat {
        le_value(self.bytes@)
    }
}

impl Scalar {
    #[verifier::type_invariant]
    spec fn canonical(self) -> bool {
        le_value(self.bytes@) < modulus()
    }

    /// The additive identity.
    pub fn zero() -> (r: Scalar)
        ensures
            r@ == 0,
    {
        fp_from_u64(0)
    }

    /// The multiplicative identity.
    pub fn one() -> (r: Scalar)
        ensures
            r@ == 1,
    {
        fp_from_u64(1)
    }

    /// The element that `value` stands for.
    pub fn from_u64(value: u64) -> (r: Scalar)
        ensures
            r@ == value as nat,
    {
        fp_from_u64(value)
    }

    /// The element with the given canonical little-endian encoding, if the
    /// encoding is canonical, that is, stands for a number below `p`.
    pub fn from_bytes(bytes: [u8; 32]) -> (r: Option<Scalar>)
        ensures
            r is Some <==> le_value(bytes@) < modulus(),
            r matches Some(s) ==> s@ == le_value(bytes@),
    {
        fp_from_repr(bytes)
    }

    /// The canonical little-endian encoding of the element.
    pub fn to_bytes(&self) -> (r: [u8; 32])
        ensures
            le_value(r@) == self@,
    {
        self.bytes
    }

    /// Every element lies in `[0, p)`.
    pub fn in_range(&self)
        ensures
            self@ < modulus(),
    {
        proof {
            use_type_invariant(self);
        }
    }

    /// The sum of two elements.
    pub fn add(&self, other: &Scalar) -> (r: Scalar)
        ensures
            r@ == fadd(self@, other@),
    {
        fp_add(self, other)
    }

    /// The difference of two elements.
    pub fn sub(&self, other: &Scalar) -> (r: Scalar)
        ensures
            r@ == fsub(self@, other@),
    {
        fp_sub(self, other)
    }

    /// The product of two elements.
    pub fn mul(&self, other: &Scalar) -> (r: Scalar)
        ensures
            r@ == fmul(self@, other@),
    {
        fp_mul(self, other)
    }

    /// The additive inverse.
    pub fn neg(&self) -> (r: Scalar)
        ensures
            r@ == fneg(self@),
    {
        fp_neg(self)
    }

    /// The square of the element.
    pub fn square(&self) -> (r: Scalar)
        ensures
            r@ == fmul(self@, self@),
    {
        fp_mul(self, self)
    }

    /// The element raised to `exp`.
    pub fn pow(&self, exp: u64) -> (r: Scalar)
        ensures
            r@ == fpow(self@, exp as nat),
    {
        fp_pow(self, exp)
    }

    /// The multiplicative inverse, which every element but zero has.
    pub fn invert(&self) -> (r: Option<Scalar>)
        ensures
            r is None <==> self@ == 0,
            r matches Some(inv) ==> inv@ == finv(self@) && fmul(inv@, self@) == 1,
    {
        let r = fp_invert(self);
        if let Some(inv) = &r {
            proof {
                use_type_invariant(inv);
                lemma_inverse_unique(self@, inv@);
            }
        }
        r
    }

    /// Whether two elements are the same element.
    pub fn equals(&self, other: &Scalar) -> (r: bool)
        ensures
            r == (self@ == other@),
    {
        let mut i: usize = 0;
        while i < 32
            invariant
                i <= 32,
                forall|j: int| 0 <= j < i ==> self.bytes@[j] == other.bytes@[j],
            decreases 32 - i,
        {
            if self.bytes[i] != other.bytes[i] {
                proof {
                    if self@ == other@ {
                        lemma_le_value_injective(self.bytes@, other.bytes@);
                    }
                }
                return false;
            }
            i += 1;
        }
        assert(self.bytes@ =~= other.bytes@);
        true
    }

    /// Whether the element is zero.
    pub fn is_zero(&self) -> (r: bool)
        ensures
            r == (self@ == 0),
    {
        let zero = Scalar::zero();
        self.equals(&zero)
    }

    /// An element drawn from the generator: some element of the field.
    /// Which one depends on the state of the generator, of which nothing
    /// is said.
    pub fn random(rng: &mut StdRng) -> (r: Scalar)
        ensures
            r@ < modulus(),
    {
        let r = fp_random(rng);
        proof {
            use_type_invariant(&r);
        }
        r
    }
}

/// The seeded generator of `rand`; opaque to the verifier.
#[verifier::external_type_specification]
#[verifier::external_body]
pub struct ExStdRng(StdRng);

/// `Fp::from(u64)`: the field element congruent to the given integer, which
/// is below `p` and therefore its own canonical value.
#[verifier::external_body]
fn fp_from_u64(value: u64) -> (r: Scalar)
    ensures
        r@ == value as nat,
{
    Scalar { bytes: Fp::from(value).to_repr() }
}

/// `Fp::from_repr`: accepts exactly the encodings of numbers below `p`, and
/// yields the element with that canonical value.
#[verifier::external_body]
fn fp_from_repr(bytes: [u8; 32]) -> (r: Option<Scalar>)
    ensures
        r is Some <==> le_value(bytes@) < modulus(),
        r matches Some(s) ==> s@ == le_value(bytes@),
{
    Option::from(Fp::from_repr(bytes)).map(|x: Fp| Scalar { bytes: x.to_repr() })
}

/// `Fp + Fp`: addition modulo `p`.
#[verifier::external_body]
fn fp_add(a: &Scalar, b: &Scalar) -> (r: Scalar)
    ensures
        r@ == fadd(a@, b@),
{
    Scalar { bytes: (Fp::from_repr(a.bytes).unwrap() + Fp::from_repr(b.bytes).unwrap()).to_repr() }
}

/// `Fp - Fp`: subtraction modulo `p`.
#[verifier::external_body]
fn fp_sub(a: &Scalar, b: &Scalar) -> (r: Scalar)
    ensures
        r@ == fsub(a@, b@),
{
    Scalar { bytes: (Fp::from_repr(a.bytes).unwrap() - Fp::from_repr(b.bytes).unwrap()).to_repr() }
}

/// `Fp * Fp`: multiplication modulo `p`.
#[verifier::external_body]
fn fp_mul(a: &Scalar, b: &Scalar) -> (r: Scalar)
    ensures
        r@ == fmul(a@, b@),
{
    Scalar { bytes: (Fp::from_repr(a.bytes).unwrap() * Fp::from_repr(b.bytes).unwrap()).to_repr() }
}

/// `-Fp`: negation modulo `p`.
#[verifier::external_body]
fn fp_neg(a: &Scalar) -> (r: Scalar)
    ensures
        r@ == fneg(a@),
{
    Scalar { bytes: (-Fp::from_repr(a.bytes).unwrap()).to_repr() }
}

/// `Field::pow_vartime` with a one-limb exponent: the element multiplied by
/// itself `exp` times, one for `exp == 0`.
#[verifier::external_body]
fn fp_pow(a: &Scalar, exp: u64) -> (r: Scalar)
    ensures
        r@ == fpow(a@, exp as nat),
{
    Scalar { bytes: Fp::from_repr(a.bytes).unwrap().pow_vartime([exp]).to_repr() }
}

/// `Field::invert`: fails on zero and on nothing else; what it returns
/// multiplies with the argument to one.
#[verifier::external_body]
fn fp_invert(a: &Scalar) -> (r: Option<Scalar>)
    ensures
        r is None <==> a@ == 0,
        r matches Some(inv) ==> fmul(inv@, a@) == 1,
{
    Option::from(
        Fp::from_repr(a.bytes).unwrap().invert()
    ).map(|x: Fp| Scalar { bytes: x.to_repr() })
}

/// `Field::random`: some element of the field; which one depends on the
/// state of the generator.
#[verifier::external_body]
fn fp_random(rng: &mut StdRng) -> Scalar {
    Scalar { bytes: Fp::random(rng).to_repr() }
}

} // verus!
