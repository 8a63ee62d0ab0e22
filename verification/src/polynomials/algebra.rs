//! The laws of the polynomial algebra: evaluation is linear and follows
//! dilation, and the reversed dot product is bilinear and is the sum of its
//! terms.

use crate::algebra::lemma_fadd_assoc;
use crate::algebra::lemma_fadd_swap4;
use crate::algebra::lemma_fadd_zeros;
use crate::algebra::lemma_fmul_assoc;
use crate::algebra::lemma_fmul_comm;
use crate::algebra::lemma_fmul_distributes_left;
use crate::algebra::lemma_fmul_distributes_right;
use crate::algebra::lemma_fmul_one;
use crate::algebra::lemma_fmul_rotate;
use crate::algebra::lemma_fmul_zero;
use crate::algebra::lemma_reduced;
use crate::field::fadd;
use crate::field::fmul;
use crate::field::modulus;
use crate::field::fpow;
use crate::polynomials::dilate_spec;
use crate::polynomials::eval_spec;
use crate::polynomials::revdot_upto;
use crate::polynomials::scale_spec;
use crate::polynomials::sum_spec;
use vstd::prelude::*;

verus! {

/// The zero polynomial of `len` coefficients.
pub open spec fn zero_poly(len: nat) -> Seq<nat> {
    Seq::new(len, |k: int| 0nat)
}

/// Evaluation is additive.
pub proof fn lemma_eval_sum(a: Seq<nat>, b: Seq<nat>, x: nat)
    requires
        a.len() == b.len(),
    ensures
        eval_spec(sum_spec(a, b), x) == fadd(eval_spec(a, x), eval_spec(b, x)),
    decreases a.len(),
{
    if a.len() == 0 {
        lemma_fadd_zeros();
    } else {
        let s = sum_spec(a, b);
        assert(s.skip(1) =~= sum_spec(a.skip(1), b.skip(1)));
        lemma_eval_sum(a.skip(1), b.skip(1), x);
        let ea = eval_spec(a.skip(1), x);
        let eb = eval_spec(b.skip(1), x);
        lemma_fmul_distributes_left(x, ea, eb);
        lemma_fadd_swap4(a[0], b[0], fmul(x, ea), fmul(x, eb));
        assert(s[0] == fadd(a[0], b[0]));
        assert(eval_spec(s, x) == fadd(s[0], fmul(x, eval_spec(s.skip(1), x))));
        assert(fadd(fadd(a[0], b[0]), fmul(x, fadd(ea, eb))) == fadd(
            fadd(a[0], b[0]),
            fadd(fmul(x, ea), fmul(x, eb)),
        ));
    }
}

/// A factor of the polynomial may be taken out of its value.
pub proof fn lemma_eval_scale(a: Seq<nat>, f: nat, x: nat)
    ensures
        eval_spec(scale_spec(a, f), x) == fmul(f, eval_spec(a, x)),
    decreases a.len(),
{
    if a.len() == 0 {
        lemma_fmul_zero(f);
    } else {
        let s = scale_spec(a, f);
        assert(s.skip(1) =~= scale_spec(a.skip(1), f));
        lemma_eval_scale(a.skip(1), f, x);
        let ea = eval_spec(a.skip(1), x);
        assert(s[0] == fmul(a[0], f));
        lemma_fmul_comm(a[0], f);
        lemma_fmul_rotate(x, ea, f);
        lemma_fmul_comm(ea, f);
        assert(fmul(x, fmul(f, ea)) == fmul(f, fmul(x, ea)));
        lemma_fmul_distributes_left(f, a[0], fmul(x, ea));
        assert(eval_spec(s, x) == fadd(s[0], fmul(x, eval_spec(s.skip(1), x))));
    }
}

/// The value of a polynomial lies in the field.
pub proof fn lemma_eval_in_field(a: Seq<nat>, x: nat)
    ensures
        eval_spec(a, x) < crate::field::modulus(),
    decreases a.len(),
{
}

/// Dilating a polynomial by `z` evaluates it at `z` times the point: the
/// value of the dilated polynomial at `x` is the value of the polynomial
/// at `x * z`.
pub proof fn lemma_dilate_evaluates(c: Seq<nat>, z: nat, x: nat)
    ensures
        eval_spec(dilate_spec(c, z), x) == eval_spec(c, fmul(x, z)),
    decreases c.len(),
{
    if c.len() > 0 {
        let d = dilate_spec(c, z);
        let rest = c.skip(1);
        let scaled = scale_spec(dilate_spec(rest, z), z);
        assert forall|k: int| 0 <= k < rest.len() implies d.skip(1)[k] == scaled[k] by {
            let pw = fpow(z, k as nat);
            assert(d.skip(1)[k] == fmul(c[k + 1], fpow(z, (k + 1) as nat)));
            assert(fpow(z, (k + 1) as nat) == fmul(z, pw));
            assert(scaled[k] == fmul(fmul(rest[k], pw), z));
            lemma_fmul_assoc(c[k + 1], pw, z);
            lemma_fmul_comm(pw, z);
        }
        assert(d.skip(1) =~= scaled);
        lemma_eval_scale(dilate_spec(rest, z), z, x);
        lemma_dilate_evaluates(rest, z, x);
        let e = eval_spec(rest, fmul(x, z));
        lemma_fmul_assoc(x, z, e);
        assert(d[0] == fmul(c[0], fpow(z, 0)));
        lemma_fmul_one(c[0]);
        vstd::arithmetic::div_mod::lemma_add_mod_noop(
            c[0] as int,
            fmul(fmul(x, z), e) as int,
            crate::field::modulus() as int,
        );
        vstd::arithmetic::div_mod::lemma_mod_twice(
            fmul(fmul(x, z), e) as int,
            crate::field::modulus() as int,
        );
        vstd::arithmetic::div_mod::lemma_add_mod_noop(
            (c[0] % crate::field::modulus()) as int,
            fmul(fmul(x, z), e) as int,
            crate::field::modulus() as int,
        );
        vstd::arithmetic::div_mod::lemma_mod_twice(
            c[0] as int,
            crate::field::modulus() as int,
        );
    }
}

/// The value of a polynomial at zero is its constant term.
pub proof fn lemma_eval_at_zero(c: Seq<nat>)
    requires
        c.len() > 0,
    ensures
        eval_spec(c, 0) == c[0] % crate::field::modulus(),
{
    lemma_fmul_zero(eval_spec(c.skip(1), 0));
}

/// One more monomial: where a coefficient that was zero is set to `v`, the
/// value at `x` grows by `v * x^k`.
pub proof fn lemma_eval_update(c: Seq<nat>, k: int, v: nat, x: nat)
    requires
        0 <= k < c.len(),
        c[k] == 0,
    ensures
        eval_spec(c.update(k, v), x) == fadd(eval_spec(c, x), fmul(v, fpow(x, k as nat))),
    decreases k,
{
    let u = c.update(k, v);
    let rest = eval_spec(c.skip(1), x);
    if k == 0 {
        assert(u.skip(1) =~= c.skip(1));
        let t = fmul(x, rest);
        lemma_fmul_one(v);
        vstd::arithmetic::div_mod::lemma_add_mod_noop(t as int, v as int, modulus() as int);
        assert(fadd(0, t) == t % modulus());
        assert(fadd(v, t) == fadd(fadd(0, t), fmul(v, 1)));
    } else {
        assert(u.skip(1) =~= c.skip(1).update(k - 1, v));
        lemma_eval_update(c.skip(1), k - 1, v, x);
        let lower = fpow(x, (k - 1) as nat);
        let m = fmul(v, lower);
        lemma_fmul_distributes_left(x, rest, m);
        lemma_fadd_assoc(c[0], fmul(x, rest), fmul(x, m));
        lemma_fmul_assoc(x, v, lower);
        lemma_fmul_comm(x, v);
        lemma_fmul_assoc(v, x, lower);
    }
}

/// The zero polynomial has the value zero everywhere.
pub proof fn lemma_eval_of_zeros(c: Seq<nat>, x: nat)
    requires
        forall|k: int| 0 <= k < c.len() ==> c[k] == 0,
    ensures
        eval_spec(c, x) == 0,
    decreases c.len(),
{
    if c.len() > 0 {
        lemma_eval_of_zeros(c.skip(1), x);
        lemma_fmul_zero(x);
        lemma_fadd_zeros();
    }
}

/// The reversed dot product with the zero polynomial is zero.
pub proof fn lemma_revdot_zero(x: Seq<nat>, len: nat, m: nat)
    requires
        x.len() == len,
        m <= len,
    ensures
        revdot_upto(x, zero_poly(len), m) == 0,
        revdot_upto(zero_poly(len), x, m) == 0,
    decreases m,
{
    if m > 0 {
        lemma_revdot_zero(x, len, (m - 1) as nat);
        lemma_fmul_zero(x[m - 1]);
        lemma_fmul_zero(x[len - m]);
    }
}

/// The reversed dot product is additive in its first argument.
pub proof fn lemma_revdot_sum_left(x: Seq<nat>, y: Seq<nat>, z: Seq<nat>, m: nat)
    requires
        x.len() == y.len(),
        x.len() == z.len(),
        m <= x.len(),
    ensures
        revdot_upto(sum_spec(x, y), z, m) == fadd(revdot_upto(x, z, m), revdot_upto(y, z, m)),
    decreases m,
{
    if m > 0 {
        let k = (m - 1) as nat;
        lemma_revdot_sum_left(x, y, z, k);
        let zz = z[z.len() - m];
        let s = sum_spec(x, y);
        assert(s[m - 1] == fadd(x[m - 1], y[m - 1]));
        lemma_fmul_distributes_right(x[m - 1], y[m - 1], zz);
        lemma_fadd_swap4(
            revdot_upto(x, z, k),
            revdot_upto(y, z, k),
            fmul(x[m - 1], zz),
            fmul(y[m - 1], zz),
        );
        assert(revdot_upto(s, z, m) == fadd(revdot_upto(s, z, k), fmul(s[m - 1], zz)));
        assert(revdot_upto(x, z, m) == fadd(revdot_upto(x, z, k), fmul(x[m - 1], zz)));
        assert(revdot_upto(y, z, m) == fadd(revdot_upto(y, z, k), fmul(y[m - 1], zz)));
    } else {
        lemma_fadd_zeros();
    }
}

/// The reversed dot product is additive in its second argument.
pub proof fn lemma_revdot_sum_right(x: Seq<nat>, y: Seq<nat>, z: Seq<nat>, m: nat)
    requires
        x.len() == y.len(),
        x.len() == z.len(),
        m <= x.len(),
    ensures
        revdot_upto(x, sum_spec(y, z), m) == fadd(revdot_upto(x, y, m), revdot_upto(x, z, m)),
    decreases m,
{
    if m > 0 {
        let k = (m - 1) as nat;
        lemma_revdot_sum_right(x, y, z, k);
        let i = y.len() - m;
        let s = sum_spec(y, z);
        assert(s[i] == fadd(y[i], z[i]));
        lemma_fmul_distributes_left(x[m - 1], y[i], z[i]);
        lemma_fadd_swap4(
            revdot_upto(x, y, k),
            revdot_upto(x, z, k),
            fmul(x[m - 1], y[i]),
            fmul(x[m - 1], z[i]),
        );
        assert(revdot_upto(x, s, m) == fadd(revdot_upto(x, s, k), fmul(x[m - 1], s[i])));
        assert(revdot_upto(x, y, m) == fadd(revdot_upto(x, y, k), fmul(x[m - 1], y[i])));
        assert(revdot_upto(x, z, m) == fadd(revdot_upto(x, z, k), fmul(x[m - 1], z[i])));
    } else {
        lemma_fadd_zeros();
    }
}

/// A factor of the first argument may be taken out of the reversed dot
/// product.
pub proof fn lemma_revdot_scale_left(x: Seq<nat>, f: nat, z: Seq<nat>, m: nat)
    requires
        x.len() == z.len(),
        m <= x.len(),
    ensures
        revdot_upto(scale_spec(x, f), z, m) == fmul(f, revdot_upto(x, z, m)),
    decreases m,
{
    if m > 0 {
        let k = (m - 1) as nat;
        lemma_revdot_scale_left(x, f, z, k);
        let zz = z[z.len() - m];
        let s = scale_spec(x, f);
        assert(s[m - 1] == fmul(x[m - 1], f));
        lemma_fmul_rotate(x[m - 1], zz, f);
        lemma_fmul_distributes_left(f, revdot_upto(x, z, k), fmul(x[m - 1], zz));
        assert(revdot_upto(s, z, m) == fadd(revdot_upto(s, z, k), fmul(s[m - 1], zz)));
        assert(revdot_upto(x, z, m) == fadd(revdot_upto(x, z, k), fmul(x[m - 1], zz)));
    } else {
        lemma_fmul_zero(f);
    }
}

/// A factor of the second argument may be taken out of the reversed dot
/// product.
pub proof fn lemma_revdot_scale_right(x: Seq<nat>, z: Seq<nat>, f: nat, m: nat)
    requires
        x.len() == z.len(),
        m <= x.len(),
    ensures
        revdot_upto(x, scale_spec(z, f), m) == fmul(f, revdot_upto(x, z, m)),
    decreases m,
{
    if m > 0 {
        let k = (m - 1) as nat;
        lemma_revdot_scale_right(x, z, f, k);
        let zz = z[z.len() - m];
        let s = scale_spec(z, f);
        assert(s[z.len() - m] == fmul(zz, f));
        lemma_fmul_rotate(x[m - 1], zz, f);
        lemma_fmul_distributes_left(f, revdot_upto(x, z, k), fmul(x[m - 1], zz));
        assert(revdot_upto(x, s, m) == fadd(revdot_upto(x, s, k), fmul(x[m - 1], s[z.len() - m])));
        assert(revdot_upto(x, z, m) == fadd(revdot_upto(x, z, k), fmul(x[m - 1], zz)));
    } else {
        lemma_fmul_zero(f);
    }
}

/// A reversed dot product in which one factor of every term is zero is
/// zero.
pub proof fn lemma_revdot_disjoint(a: Seq<nat>, b: Seq<nat>, m: nat)
    requires
        a.len() == b.len(),
        m <= a.len(),
        forall|k: int| 0 <= k < a.len() ==> a[k] == 0 || b[b.len() - 1 - k] == 0,
    ensures
        revdot_upto(a, b, m) == 0,
    decreases m,
{
    if m > 0 {
        lemma_revdot_disjoint(a, b, (m - 1) as nat);
        let k = m - 1;
        assert(a[k] == 0 || b[b.len() - 1 - k] == 0);
        lemma_fmul_zero(a[k]);
        lemma_fmul_zero(b[b.len() - m]);
        lemma_fadd_zeros();
    }
}

/// The terms of a reversed dot product: term `k` is `a[k] * b[len - 1 - k]`.
pub open spec fn revdot_terms(a: Seq<nat>, b: Seq<nat>) -> Seq<nat> {
    Seq::new(a.len(), |k: int| fmul(a[k], b[b.len() - 1 - k]))
}

/// The sum of the terms from `lo` up to, but not including, `hi`.
pub open spec fn range_sum(t: Seq<nat>, lo: int, hi: int) -> nat
    decreases hi - lo,
{
    if hi <= lo {
        0
    } else {
        fadd(range_sum(t, lo, hi - 1), t[hi - 1])
    }
}

/// A sum of terms lies in the field.
pub proof fn lemma_range_sum_in_field(t: Seq<nat>, lo: int, hi: int)
    ensures
        range_sum(t, lo, hi) < crate::field::modulus(),
    decreases hi - lo,
{
}

/// The first term may be taken out of a sum.
pub proof fn lemma_range_sum_first(t: Seq<nat>, lo: int, hi: int)
    requires
        lo < hi,
    ensures
        range_sum(t, lo, hi) == fadd(t[lo], range_sum(t, lo + 1, hi)),
    decreases hi - lo,
{
    if hi == lo + 1 {
        assert(range_sum(t, lo, lo) == 0);
        assert(range_sum(t, lo + 1, hi) == 0);
    } else {
        lemma_range_sum_first(t, lo, hi - 1);
        lemma_fadd_assoc(t[lo], range_sum(t, lo + 1, hi - 1), t[hi - 1]);
    }
}

/// A sum may be split in two.
pub proof fn lemma_range_sum_split(t: Seq<nat>, lo: int, mid: int, hi: int)
    requires
        lo <= mid <= hi,
    ensures
        range_sum(t, lo, hi) == fadd(range_sum(t, lo, mid), range_sum(t, mid, hi)),
    decreases hi - mid,
{
    if hi == mid {
        lemma_range_sum_in_field(t, lo, mid);
        lemma_reduced(range_sum(t, lo, mid));
    } else {
        lemma_range_sum_split(t, lo, mid, hi - 1);
        lemma_fadd_assoc(range_sum(t, lo, mid), range_sum(t, mid, hi - 1), t[hi - 1]);
    }
}

/// A sum of zeros is zero.
pub proof fn lemma_range_sum_zero(t: Seq<nat>, lo: int, hi: int)
    requires
        forall|k: int| lo <= k < hi ==> t[k] == 0,
    ensures
        range_sum(t, lo, hi) == 0,
    decreases hi - lo,
{
    if lo < hi {
        lemma_range_sum_zero(t, lo, hi - 1);
        lemma_fadd_zeros();
    }
}

/// The reversed dot product is the sum of its terms.
pub proof fn lemma_revdot_is_range_sum(a: Seq<nat>, b: Seq<nat>, m: nat)
    requires
        a.len() == b.len(),
        m <= a.len(),
    ensures
        revdot_upto(a, b, m) == range_sum(revdot_terms(a, b), 0, m as int),
    decreases m,
{
    if m > 0 {
        lemma_revdot_is_range_sum(a, b, (m - 1) as nat);
    }
}

} // verus!
