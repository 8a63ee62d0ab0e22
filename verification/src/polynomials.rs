//! Polynomials over the circuit field on a domain of fixed capacity.
//!
//! A [`Rank`] fixes the number `n` of multiplication gates; every polynomial
//! of that rank has exactly `4n` coefficients, lowest degree first. The two
//! layouts, [`structured::Polynomial`] and [`unstructured::Polynomial`], share
//! the functions of this module and differ in how their coefficients are
//! addressed.

pub mod algebra;
pub mod committed;
pub(crate) mod dense;
pub mod staging;
pub mod structured;
pub mod unstructured;

use crate::field::fadd;
use crate::field::fmul;
use crate::field::fpow;
use crate::field::Scalar;
use vstd::arithmetic::power2::lemma_pow2_pos;
use vstd::arithmetic::power2::lemma_pow2_strictly_increases;
use vstd::arithmetic::power2::lemma_pow2_unfold;
use vstd::arithmetic::power2::lemma2_to64;
use vstd::arithmetic::power2::pow2;
use vstd::prelude::*;

verus! {

/// The largest accepted binary logarithm of the number of coefficients.
pub const MAX_LOG2_COEFFS: u32 = 30;

/// The capacity of a circuit: `n` multiplication gates, `4n` coefficients.
#[derive(Clone, Copy, Debug, PartialEq, Eq, Structural)]
pub struct Rank {
    log2_coeffs: u32,
    n: usize,
}

impl Rank {
    #[verifier::type_invariant]
    spec fn well_formed(self) -> bool {
        &&& 2 <= self.log2_coeffs <= MAX_LOG2_COEFFS
        &&& self.n as nat == pow2((self.log2_coeffs - 2) as nat)
        &&& 1 <= self.n <= 0x1000_0000
    }

    /// The number of multiplication gates.
    pub closed spec fn spec_n(&self) -> nat {
        self.n as nat
    }

    /// The binary logarithm of the number of coefficients.
    pub closed spec fn spec_log2_coeffs(&self) -> nat {
        self.log2_coeffs as nat
    }

    /// The number of coefficients, `4n`.
    pub open spec fn spec_num_coeffs(&self) -> nat {
        4 * self.spec_n()
    }

    /// The rank with `2^log2_coeffs` coefficients, for `log2_coeffs` from 2
    /// to [`MAX_LOG2_COEFFS`].
    pub fn new(log2_coeffs: u32) -> (r: Option<Rank>)
        ensures
            r is Some <==> 2 <= log2_coeffs <= MAX_LOG2_COEFFS,
            r matches Some(rank) ==> rank.spec_log2_coeffs() == log2_coeffs && rank.spec_n()
                == pow2((log2_coeffs - 2) as nat),
    {
        if log2_coeffs < 2 || log2_coeffs > MAX_LOG2_COEFFS {
            return None;
        }
        let mut n: usize = 1;
        let mut i: u32 = 2;
        proof {
            lemma2_to64();
        }
        while i < log2_coeffs
            invariant
                2 <= i <= log2_coeffs <= MAX_LOG2_COEFFS,
                n as nat == pow2((i - 2) as nat),
                1 <= n <= 0x1000_0000,
            decreases log2_coeffs - i,
        {
            proof {
                lemma_pow2_unfold((i - 1) as nat);
                lemma2_to64();
                if i < 30 {
                    lemma_pow2_strictly_increases((i - 2) as nat, 28);
                }
            }
            n = n * 2;
            i = i + 1;
        }
        Some(Rank { log2_coeffs, n })
    }

    /// The number of multiplication gates, at least one.
    pub fn n(&self) -> (r: usize)
        ensures
            r == self.spec_n(),
            1 <= r <= 0x1000_0000,
    {
        proof {
            use_type_invariant(self);
        }
        self.n
    }

    /// The binary logarithm of the number of coefficients.
    pub fn log2_coeffs(&self) -> (r: u32)
        ensures
            r == self.spec_log2_coeffs(),
    {
        self.log2_coeffs
    }

    /// The number of coefficients, `4n`.
    pub fn num_coeffs(&self) -> (r: usize)
        ensures
            r == self.spec_num_coeffs(),
            4 <= r <= 0x4000_0000,
    {
        proof {
            use_type_invariant(self);
        }
        4 * self.n
    }
}

/// The field elements that a vector of scalars holds.
pub open spec fn values(v: Seq<Scalar>) -> Seq<nat> {
    Seq::new(v.len(), |i: int| v[i]@)
}

/// The value at `x` of the polynomial with coefficients `c`, lowest degree
/// first.
pub open spec fn eval_spec(c: Seq<nat>, x: nat) -> nat
    decreases c.len(),
{
    if c.len() == 0 {
        0
    } else {
        fadd(c[0], fmul(x, eval_spec(c.skip(1), x)))
    }
}

/// Every coefficient multiplied by `factor`.
pub open spec fn scale_spec(c: Seq<nat>, factor: nat) -> Seq<nat> {
    Seq::new(c.len(), |k: int| fmul(c[k], factor))
}

/// The coefficient-wise sum of two polynomials of one length.
pub open spec fn sum_spec(a: Seq<nat>, b: Seq<nat>) -> Seq<nat> {
    Seq::new(a.len(), |k: int| fadd(a[k], b[k]))
}

/// The polynomial `q` with `q(x) = c(x * z)`: coefficient `k` times `z^k`.
pub open spec fn dilate_spec(c: Seq<nat>, z: nat) -> Seq<nat> {
    Seq::new(c.len(), |k: int| fmul(c[k], fpow(z, k as nat)))
}

/// The sum over `k < m` of `a[k] * b[len - 1 - k]`.
pub open spec fn revdot_upto(a: Seq<nat>, b: Seq<nat>, m: nat) -> nat
    decreases m,
{
    if m == 0 {
        0
    } else {
        fadd(revdot_upto(a, b, (m - 1) as nat), fmul(a[m - 1], b[b.len() - m]))
    }
}

/// The reversed dot product of two coefficient vectors of one length: the
/// sum over all `k` of `a[k] * b[len - 1 - k]`.
pub open spec fn revdot_spec(a: Seq<nat>, b: Seq<nat>) -> nat {
    revdot_upto(a, b, a.len())
}

/// A vector of `len` zeros.
pub(crate) fn zeros(len: usize) -> (r: Vec<Scalar>)
    ensures
        r@.len() == len,
        forall|k: int| 0 <= k < len ==> r@[k]@ == 0,
{
    let mut r: Vec<Scalar> = Vec::new();
    let mut i: usize = 0;
    while i < len
        invariant
            i <= len,
            r@.len() == i,
            forall|k: int| 0 <= k < i ==> r@[k]@ == 0,
        decreases len - i,
    {
        r.push(Scalar::zero());
        i += 1;
    }
    r
}

/// A copy of the vector.
pub(crate) fn copy_dense(c: &Vec<Scalar>) -> (r: Vec<Scalar>)
    ensures
        r@ == c@,
{
    let mut r: Vec<Scalar> = Vec::new();
    let mut i: usize = 0;
    while i < c.len()
        invariant
            i <= c@.len(),
            r@ == c@.subrange(0, i as int),
        decreases c@.len() - i,
    {
        r.push(c[i]);
        assert(r@ =~= c@.subrange(0, i + 1));
        i += 1;
    }
    assert(r@ =~= c@);
    r
}

/// Appends the items to the vector.
pub(crate) fn extend_dense(r: &mut Vec<Scalar>, items: &Vec<Scalar>)
    ensures
        final(r)@ == old(r)@ + items@,
        values(final(r)@) == values(old(r)@) + values(items@),
{
    let ghost before = r@;
    let mut i: usize = 0;
    while i < items.len()
        invariant
            i <= items@.len(),
            r@ == before + items@.subrange(0, i as int),
        decreases items@.len() - i,
    {
        r.push(items[i]);
        assert(r@ =~= before + items@.subrange(0, i + 1));
        i += 1;
    }
    assert(items@.subrange(0, items@.len() as int) =~= items@);
    assert(values(r@) =~= values(before) + values(items@));
}

/// Horner evaluation of the coefficients at `x`.
pub(crate) fn eval_dense(c: &Vec<Scalar>, x: &Scalar) -> (r: Scalar)
    ensures
        r@ == eval_spec(values(c@), x@),
{
    let ghost all = values(c@);
    let mut acc = Scalar::zero();
    let mut i: usize = c.len();
    assert(all.subrange(i as int, all.len() as int).len() == 0);
    while i > 0
        invariant
            i <= c.len(),
            all == values(c@),
            acc@ == eval_spec(all.subrange(i as int, all.len() as int), x@),
        decreases i,
    {
        i -= 1;
        proof {
            let s = all.subrange(i as int, all.len() as int);
            assert(s.skip(1) =~= all.subrange(i + 1, all.len() as int));
            assert(s[0] == c@[i as int]@);
        }
        acc = c[i].add(&x.mul(&acc));
    }
    assert(all.subrange(0, all.len() as int) =~= all);
    acc
}

} // verus!
