//! The laws of the circuit field that the proofs of this library use, each
//! derived from integer arithmetic modulo `p`.

use crate::field::fadd;
use crate::field::fmul;
use crate::field::fneg;
use crate::field::fpow;
use crate::field::modulus;
use vstd::arithmetic::div_mod::lemma_add_mod_noop;
use vstd::arithmetic::div_mod::lemma_add_mod_noop_right;
use vstd::arithmetic::div_mod::lemma_mod_twice;
use vstd::arithmetic::div_mod::lemma_mul_mod_noop_general;
use vstd::arithmetic::div_mod::lemma_small_mod;
use vstd::arithmetic::div_mod::lemma_sub_mod_noop_right;
use vstd::prelude::*;

verus! {

/// Addition in the field is commutative.
pub proof fn lemma_fadd_comm(a: nat, b: nat)
    ensures
        fadd(a, b) == fadd(b, a),
{
}

/// Addition in the field is associative.
pub proof fn lemma_fadd_assoc(a: nat, b: nat, c: nat)
    ensures
        fadd(fadd(a, b), c) == fadd(a, fadd(b, c)),
{
    let m = modulus() as int;
    lemma_add_mod_noop_right(c as int, (a + b) as int, m);
    lemma_add_mod_noop_right(a as int, (b + c) as int, m);
}

/// Zero plus zero is zero.
pub proof fn lemma_fadd_zeros()
    ensures
        fadd(0, 0) == 0,
{
    lemma_small_mod(0, modulus());
}

/// A sum of two sums may be regrouped.
pub proof fn lemma_fadd_swap4(a: nat, b: nat, c: nat, d: nat)
    ensures
        fadd(fadd(a, b), fadd(c, d)) == fadd(fadd(a, c), fadd(b, d)),
{
    let m = modulus() as int;
    lemma_add_mod_noop((a + b) as int, (c + d) as int, m);
    lemma_add_mod_noop((a + c) as int, (b + d) as int, m);
}

/// Multiplication in the field is commutative.
pub proof fn lemma_fmul_comm(a: nat, b: nat)
    ensures
        fmul(a, b) == fmul(b, a),
{
    assert(a * b == b * a) by (nonlinear_arith);
}

/// Multiplication in the field is associative.
pub proof fn lemma_fmul_assoc(a: nat, b: nat, c: nat)
    ensures
        fmul(fmul(a, b), c) == fmul(a, fmul(b, c)),
{
    let m = modulus() as int;
    lemma_mul_mod_noop_general((a * b) as int, c as int, m);
    lemma_mul_mod_noop_general(a as int, (b * c) as int, m);
    assert((a * b) * c == a * (b * c)) by (nonlinear_arith);
}

/// Multiplying by zero gives zero.
pub proof fn lemma_fmul_zero(a: nat)
    ensures
        fmul(a, 0) == 0,
        fmul(0, a) == 0,
{
    assert(a * 0 == 0) by (nonlinear_arith);
    assert(0 * a == 0) by (nonlinear_arith);
}

/// Multiplying by one changes nothing but the representative.
pub proof fn lemma_fmul_one(a: nat)
    ensures
        fmul(a, 1) == a % modulus(),
        fmul(1, a) == a % modulus(),
{
    assert(a * 1 == a) by (nonlinear_arith);
    assert(1 * a == a) by (nonlinear_arith);
}

/// Multiplication distributes over addition, from the left.
pub proof fn lemma_fmul_distributes_left(x: nat, y: nat, z: nat)
    ensures
        fmul(x, fadd(y, z)) == fadd(fmul(x, y), fmul(x, z)),
{
    let m = modulus() as int;
    lemma_mul_mod_noop_general(x as int, (y + z) as int, m);
    lemma_add_mod_noop((x * y) as int, (x * z) as int, m);
    assert(x * (y + z) == x * y + x * z) by (nonlinear_arith);
}

/// Multiplication distributes over addition, from the right.
pub proof fn lemma_fmul_distributes_right(y: nat, z: nat, x: nat)
    ensures
        fmul(fadd(y, z), x) == fadd(fmul(y, x), fmul(z, x)),
{
    lemma_fmul_comm(fadd(y, z), x);
    lemma_fmul_comm(y, x);
    lemma_fmul_comm(z, x);
    lemma_fmul_distributes_left(x, y, z);
}

/// A factor may be moved from the innermost to the outermost place.
pub proof fn lemma_fmul_rotate(x: nat, z: nat, f: nat)
    ensures
        fmul(x, fmul(z, f)) == fmul(f, fmul(x, z)),
        fmul(fmul(x, f), z) == fmul(f, fmul(x, z)),
{
    lemma_fmul_assoc(x, z, f);
    lemma_fmul_comm(fmul(x, z), f);
    lemma_fmul_comm(x, f);
    lemma_fmul_assoc(f, x, z);
}

/// Reducing an element of the field leaves it unchanged.
pub proof fn lemma_reduced(a: nat)
    requires
        a < modulus(),
    ensures
        a % modulus() == a,
{
    lemma_small_mod(a, modulus());
}

/// Powers add up: `b^(i + j) = b^i * b^j`.
pub proof fn lemma_fpow_adds(b: nat, i: nat, j: nat)
    ensures
        fpow(b, i + j) == fmul(fpow(b, i), fpow(b, j)),
    decreases i,
{
    if i == 0 {
        lemma_fmul_one(fpow(b, j));
        if j == 0 {
        } else {
            lemma_reduced(fpow(b, j));
        }
    } else {
        lemma_fpow_adds(b, (i - 1) as nat, j);
        assert(fpow(b, i + j) == fmul(b, fpow(b, (i + j - 1) as nat)));
        lemma_fmul_assoc(b, fpow(b, (i - 1) as nat), fpow(b, j));
    }
}

/// Whether the element `x` of the field is the residue of the integer `i`.
pub open spec fn residue_of(x: nat, i: int) -> bool {
    x as int == i % (modulus() as int)
}

/// An element of the field is its own residue.
pub proof fn lemma_residue_self(x: nat)
    requires
        x < modulus(),
    ensures
        residue_of(x, x as int),
{
    lemma_small_mod(x, modulus());
}

/// The sum of residues is the residue of the sum.
pub proof fn lemma_residue_add(x: nat, y: nat, i: int, j: int)
    requires
        residue_of(x, i),
        residue_of(y, j),
    ensures
        residue_of(fadd(x, y), i + j),
{
    lemma_add_mod_noop(i, j, modulus() as int);
}

/// The product of residues is the residue of the product.
pub proof fn lemma_residue_mul(x: nat, y: nat, i: int, j: int)
    requires
        residue_of(x, i),
        residue_of(y, j),
    ensures
        residue_of(fmul(x, y), i * j),
{
    lemma_mul_mod_noop_general(i, j, modulus() as int);
}

/// The negative of a residue is the residue of the negative.
pub proof fn lemma_residue_neg(x: nat, i: int)
    requires
        residue_of(x, i),
    ensures
        residue_of(fneg(x), -i),
{
    lemma_sub_mod_noop_right(0, i, modulus() as int);
}

/// Zero has the residue zero, and nothing else has.
pub proof fn lemma_residue_zero(x: nat)
    requires
        residue_of(x, 0),
    ensures
        x == 0,
{
    lemma_small_mod(0, modulus());
}

/// `x * (-(p + q)) + x * q + x * p` is zero, for `x = a * b`, whichever way
/// the products are bracketed.
pub proof fn lemma_gate_cancels(a: nat, b: nat, p: nat, q: nat)
    requires
        a < modulus(),
        b < modulus(),
        p < modulus(),
        q < modulus(),
    ensures
        fadd(
            fadd(fmul(fmul(a, b), fneg(fadd(p, q))), fmul(b, fmul(a, q))),
            fmul(a, fmul(b, p)),
        ) == 0,
{
    let (ia, ib, ip, iq) = (a as int, b as int, p as int, q as int);
    lemma_residue_self(a);
    lemma_residue_self(b);
    lemma_residue_self(p);
    lemma_residue_self(q);
    lemma_residue_mul(a, b, ia, ib);
    lemma_residue_add(p, q, ip, iq);
    lemma_residue_neg(fadd(p, q), ip + iq);
    lemma_residue_mul(fmul(a, b), fneg(fadd(p, q)), ia * ib, -(ip + iq));
    lemma_residue_mul(a, q, ia, iq);
    lemma_residue_mul(b, fmul(a, q), ib, ia * iq);
    lemma_residue_mul(b, p, ib, ip);
    lemma_residue_mul(a, fmul(b, p), ia, ib * ip);
    let first = fmul(fmul(a, b), fneg(fadd(p, q)));
    let second = fmul(b, fmul(a, q));
    let third = fmul(a, fmul(b, p));
    lemma_residue_add(first, second, (ia * ib) * (-(ip + iq)), ib * (ia * iq));
    lemma_residue_add(
        fadd(first, second),
        third,
        (ia * ib) * (-(ip + iq)) + ib * (ia * iq),
        ia * (ib * ip),
    );
    assert((ia * ib) * (-(ip + iq)) + ib * (ia * iq) + ia * (ib * ip) == 0) by (nonlinear_arith);
    lemma_residue_zero(fadd(fadd(first, second), third));
}

/// Three sums of two may be regrouped into a sum of three and a sum of
/// three.
pub proof fn lemma_fadd_regroup6(x: nat, u: nat, v: nat, y: nat, z: nat, w: nat)
    requires
        x < modulus(),
        u < modulus(),
        v < modulus(),
        y < modulus(),
        z < modulus(),
        w < modulus(),
    ensures
        fadd(fadd(fadd(x, u), fadd(v, y)), fadd(z, w)) == fadd(
            fadd(fadd(x, y), z),
            fadd(fadd(u, v), w),
        ),
{
    let (ix, iu, iv, iy, iz, iw) = (x as int, u as int, v as int, y as int, z as int, w as int);
    lemma_residue_self(x);
    lemma_residue_self(u);
    lemma_residue_self(v);
    lemma_residue_self(y);
    lemma_residue_self(z);
    lemma_residue_self(w);
    lemma_residue_add(x, u, ix, iu);
    lemma_residue_add(v, y, iv, iy);
    lemma_residue_add(z, w, iz, iw);
    lemma_residue_add(fadd(x, u), fadd(v, y), ix + iu, iv + iy);
    lemma_residue_add(fadd(fadd(x, u), fadd(v, y)), fadd(z, w), ix + iu + (iv + iy), iz + iw);
    lemma_residue_add(x, y, ix, iy);
    lemma_residue_add(fadd(x, y), z, ix + iy, iz);
    lemma_residue_add(u, v, iu, iv);
    lemma_residue_add(fadd(u, v), w, iu + iv, iw);
    lemma_residue_add(fadd(fadd(x, y), z), fadd(fadd(u, v), w), ix + iy + iz, iu + iv + iw);
}

/// A positive power of zero is zero.
pub proof fn lemma_fpow_of_zero(e: nat)
    ensures
        e >= 1 ==> fpow(0, e) == 0,
{
    if e >= 1 {
        lemma_fmul_zero(fpow(0, (e - 1) as nat));
    }
}

} // verus!
