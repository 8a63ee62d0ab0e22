//! Stages of witness construction and the wiring polynomial that enforces
//! their shape.
//!
//! A stage owns a stretch of `size` multiplication gates that begins after
//! gate 0 and `skip` further gates. Its trace polynomial holds the values of
//! the stage, two to a gate, in that stretch and is zero on every other
//! gate. The staging polynomial `s(X, Y)` of the stage has one constraint
//! for every wire of every other gate but gate 0, each forcing that wire to
//! zero; the reversed dot product of a stage's trace with `s(X, y)` is
//! therefore zero for every `y`, which [`lemma_stage_revdot_vanishes`]
//! proves.

use crate::algebra::lemma_fadd_regroup6;
use crate::algebra::lemma_fadd_zeros;
use crate::algebra::lemma_fmul_zero;
use crate::algebra::lemma_gate_cancels;
use crate::algebra::lemma_reduced;
use crate::error::Error;
use crate::field::fadd;
use crate::field::fmul;
use crate::field::fneg;
use crate::field::fpow;
use crate::field::Scalar;
use crate::algebra::lemma_fpow_of_zero;
use crate::polynomials::algebra::lemma_eval_at_zero;
use crate::polynomials::algebra::lemma_eval_of_zeros;
use crate::polynomials::algebra::lemma_range_sum_first;
use crate::polynomials::algebra::lemma_range_sum_in_field;
use crate::polynomials::algebra::lemma_range_sum_split;
use crate::polynomials::algebra::lemma_range_sum_zero;
use crate::polynomials::algebra::lemma_revdot_disjoint;
use crate::polynomials::algebra::lemma_revdot_is_range_sum;
use crate::polynomials::algebra::lemma_revdot_sum_right;
use crate::polynomials::algebra::range_sum;
use crate::polynomials::algebra::revdot_terms;
use crate::polynomials::dilate_spec;
use crate::polynomials::eval_spec;
use crate::polynomials::revdot_spec;
use crate::polynomials::revdot_upto;
use crate::polynomials::structured;
use crate::polynomials::sum_spec;
use crate::polynomials::unstructured;
use crate::polynomials::values;
use crate::polynomials::Rank;
use vstd::prelude::*;

verus! {

/// Whether the staging polynomial forces the wires of gate `g` to zero: it
/// does so for every gate but gate 0 and the `size` gates of the stage.
pub open spec fn gate_enforced(skip: nat, size: nat, n: nat, g: int) -> bool {
    (1 <= g <= skip) || (skip + size + 1 <= g < n)
}

/// The number of gates before `g` that the staging polynomial constrains.
pub open spec fn enforced_before(skip: nat, size: nat, g: int) -> int {
    if g <= skip {
        g - 1
    } else {
        g - 1 - size
    }
}

/// The number of constraints of the staging polynomial: three for each
/// constrained gate.
pub open spec fn num_constraints(size: nat, n: nat) -> int {
    3 * (n - 1 - size)
}

/// The value at position `i` of the list of stage values, zero beyond its
/// end.
pub open spec fn value_at(stage_values: Seq<nat>, i: int) -> nat {
    if 0 <= i < stage_values.len() {
        stage_values[i]
    } else {
        0
    }
}

/// The value of wire `A` of gate `g` in the trace of a stage.
pub open spec fn stage_a(stage_values: Seq<nat>, skip: nat, size: nat, g: int) -> nat {
    if skip + 1 <= g <= skip + size {
        value_at(stage_values, 2 * (g - skip - 1))
    } else {
        0
    }
}

/// The value of wire `B` of gate `g` in the trace of a stage.
pub open spec fn stage_b(stage_values: Seq<nat>, skip: nat, size: nat, g: int) -> nat {
    if skip + 1 <= g <= skip + size {
        value_at(stage_values, 2 * (g - skip - 1) + 1)
    } else {
        0
    }
}

/// Coefficient `k` of the trace polynomial of a stage.
pub open spec fn rx_coeff(stage_values: Seq<nat>, skip: nat, size: nat, n: nat, k: int) -> nat {
    if k < n {
        fmul(stage_a(stage_values, skip, size, k), stage_b(stage_values, skip, size, k))
    } else if k < 2 * n {
        stage_b(stage_values, skip, size, 2 * n - 1 - k)
    } else if k < 3 * n {
        stage_a(stage_values, skip, size, k - 2 * n)
    } else {
        0
    }
}

/// The trace polynomial of a stage: the values in pairs on wires `A` and `B`
/// of the stage's gates, their products on wire `C`, zero elsewhere.
pub open spec fn rx_spec(stage_values: Seq<nat>, skip: nat, size: nat, n: nat) -> Seq<nat> {
    Seq::new(4 * n, |k: int| rx_coeff(stage_values, skip, size, n, k))
}

/// Coefficient `k` of `s(X, y)`. The constraints are numbered from the first
/// constrained wire on; constraint `i` of `q` carries `y^(q - i)`.
pub open spec fn sy_coeff(y: nat, skip: nat, size: nat, n: nat, k: int) -> nat {
    let q = num_constraints(size, n);
    if k < n {
        0
    } else if k < 2 * n {
        let g = 2 * n - 1 - k;
        if gate_enforced(skip, size, n, g) {
            fpow(y, (q - 3 * enforced_before(skip, size, g)) as nat)
        } else {
            0
        }
    } else if k < 3 * n {
        let g = k - 2 * n;
        if gate_enforced(skip, size, n, g) {
            fpow(y, (q - 3 * enforced_before(skip, size, g) - 1) as nat)
        } else {
            0
        }
    } else {
        let g = 4 * n - 1 - k;
        if gate_enforced(skip, size, n, g) {
            fpow(y, (q - 3 * enforced_before(skip, size, g) - 2) as nat)
        } else {
            0
        }
    }
}

/// The staging polynomial with `Y` fixed to `y`, by its coefficients in `X`.
pub open spec fn sy_spec(y: nat, skip: nat, size: nat, n: nat) -> Seq<nat> {
    Seq::new(4 * n, |k: int| sy_coeff(y, skip, size, n, k))
}

/// Coefficient `j` of `s(x, Y)`: constraint `q - j` of `q`, which belongs to
/// one wire of one constrained gate and carries the power of `x` of that
/// wire.
pub open spec fn sx_coeff(x: nat, skip: nat, size: nat, n: nat, j: int) -> nat {
    let q = num_constraints(size, n);
    if j == 0 || j > q {
        0
    } else {
        let i = q - j;
        let g = if i / 3 < skip {
            1 + i / 3
        } else {
            1 + size + i / 3
        };
        if i % 3 == 0 {
            fpow(x, (2 * n - 1 - g) as nat)
        } else if i % 3 == 1 {
            fpow(x, (2 * n + g) as nat)
        } else {
            fpow(x, (4 * n - 1 - g) as nat)
        }
    }
}

/// The staging polynomial with `X` fixed to `x`, by its coefficients in `Y`.
pub open spec fn sx_spec(x: nat, skip: nat, size: nat, n: nat) -> Seq<nat> {
    Seq::new(4 * n, |j: int| sx_coeff(x, skip, size, n, j))
}

/// Which gate constraint `i` belongs to: the constraints are numbered
/// gate by gate, three to a gate, and the gates of the stage are passed
/// over.
pub open spec fn constraint_gate(skip: nat, size: nat, i: int) -> int {
    if i / 3 < skip {
        1 + i / 3
    } else {
        1 + size + i / 3
    }
}

/// The power of `X` that constraint `i` carries: that of the wire it
/// constrains.
pub open spec fn constraint_position(skip: nat, size: nat, n: nat, i: int) -> int {
    let g = constraint_gate(skip, size, i);
    if i % 3 == 0 {
        2 * n - 1 - g
    } else if i % 3 == 1 {
        2 * n + g
    } else {
        4 * n - 1 - g
    }
}

/// The two restrictions are restrictions of one polynomial, the sum over
/// all constraints `i` of `X^position(i) * Y^(q - i)`: in `s(X, y)` the
/// coefficient at the position of constraint `i` is `y^(q - i)`, and in
/// `s(x, Y)` the coefficient of `Y^(q - i)` is `x^position(i)`.
pub proof fn lemma_restrictions_share_their_monomials(
    x: nat,
    y: nat,
    skip: nat,
    size: nat,
    n: nat,
    i: int,
)
    requires
        skip + size + 1 <= n,
        0 <= i < num_constraints(size, n),
    ensures
        0 <= constraint_position(skip, size, n, i) < 4 * n,
        gate_enforced(skip, size, n, constraint_gate(skip, size, i)),
        sy_spec(y, skip, size, n)[constraint_position(skip, size, n, i)] == fpow(
            y,
            (num_constraints(size, n) - i) as nat,
        ),
        sx_spec(x, skip, size, n)[num_constraints(size, n) - i] == fpow(
            x,
            constraint_position(skip, size, n, i) as nat,
        ),
{
    let q = num_constraints(size, n);
    let g = constraint_gate(skip, size, i);
    let k = constraint_position(skip, size, n, i);
    assert(i == 3 * (i / 3) + i % 3);
    assert(0 <= i / 3 < n - 1 - size);
    assert(enforced_before(skip, size, g) == i / 3);
}

/// Every coefficient of `s(X, y)` that is not zero is the monomial of a
/// constraint.
pub proof fn lemma_sy_has_no_other_monomials(y: nat, skip: nat, size: nat, n: nat, k: int)
    requires
        skip + size + 1 <= n,
        0 <= k < 4 * n,
        sy_spec(y, skip, size, n)[k] != 0,
    ensures
        exists|i: int|
            0 <= i < num_constraints(size, n) && #[trigger] constraint_position(skip, size, n, i)
                == k,
{
    let g = if k < 2 * n {
        2 * n - 1 - k
    } else if k < 3 * n {
        k - 2 * n
    } else {
        4 * n - 1 - k
    };
    let wire: int = if k < 2 * n {
        0
    } else if k < 3 * n {
        1
    } else {
        2
    };
    assert(k >= n);
    assert(gate_enforced(skip, size, n, g));
    let i = 3 * enforced_before(skip, size, g) + wire;
    assert(i / 3 == enforced_before(skip, size, g) && i % 3 == wire);
    assert(constraint_gate(skip, size, i) == g);
    assert(constraint_position(skip, size, n, i) == k);
}

/// The monomials of the first `h` constraints at `(x, y)`, summed: for
/// constraint `i` of `q` the product of `x^position(i)` and `y^(q - i)`.
pub open spec fn monomial_sum(x: nat, y: nat, skip: nat, size: nat, n: nat, h: nat) -> nat
    decreases h,
{
    if h == 0 {
        0
    } else {
        let i = h - 1;
        fadd(
            monomial_sum(x, y, skip, size, n, i as nat),
            fmul(
                fpow(x, constraint_position(skip, size, n, i) as nat),
                fpow(y, (num_constraints(size, n) - i) as nat),
            ),
        )
    }
}

/// Which constraint has its monomial at position `k` of `s(X, y)`; none
/// is told by a negative number.
spec fn constraint_at(skip: nat, size: nat, n: nat, k: int) -> int {
    let g = if k < 2 * n {
        2 * n - 1 - k
    } else if k < 3 * n {
        k - 2 * n
    } else {
        4 * n - 1 - k
    };
    let wire: int = if k < 2 * n {
        0
    } else if k < 3 * n {
        1
    } else {
        2
    };
    if n <= k < 4 * n && gate_enforced(skip, size, n, g) {
        3 * enforced_before(skip, size, g) + wire
    } else {
        -1
    }
}

/// `s(X, y)` with the monomials of the first `h` constraints only.
spec fn sy_upto(y: nat, skip: nat, size: nat, n: nat, h: int) -> Seq<nat> {
    Seq::new(
        4 * n,
        |k: int|
            if 0 <= constraint_at(skip, size, n, k) < h {
                sy_coeff(y, skip, size, n, k)
            } else {
                0
            },
    )
}

/// `s(x, Y)` with the monomials of the first `h` constraints only.
spec fn sx_upto(x: nat, skip: nat, size: nat, n: nat, h: int) -> Seq<nat> {
    let q = num_constraints(size, n);
    Seq::new(
        4 * n,
        |j: int|
            if 1 <= j <= q && q - j < h {
                sx_coeff(x, skip, size, n, j)
            } else {
                0
            },
    )
}

/// Constraint `i` and the position of its monomial tell each other.
proof fn lemma_constraint_at(skip: nat, size: nat, n: nat, i: int, k: int)
    requires
        skip + size + 1 <= n,
        0 <= i < num_constraints(size, n),
        0 <= k < 4 * n,
    ensures
        constraint_at(skip, size, n, k) < num_constraints(size, n),
        constraint_at(skip, size, n, k) == i <==> constraint_position(skip, size, n, i) == k,
{
    let g = constraint_gate(skip, size, i);
    assert(i == 3 * (i / 3) + i % 3);
    assert(0 <= i / 3 < n - 1 - size);
    assert(enforced_before(skip, size, g) == i / 3);
    let at = constraint_at(skip, size, n, k);
    if at >= 0 {
        let gk = if k < 2 * n {
            2 * n - 1 - k
        } else if k < 3 * n {
            k - 2 * n
        } else {
            4 * n - 1 - k
        };
        let e = enforced_before(skip, size, gk);
        assert(at / 3 == e && 0 <= at - 3 * e < 3);
        assert(constraint_gate(skip, size, at) == gk);
    }
}

/// Both restrictions of the staging polynomial, cut off after the first
/// `h` constraints, have the value of the sum of those monomials.
proof fn lemma_restrictions_upto(x: nat, y: nat, skip: nat, size: nat, n: nat, h: nat)
    requires
        skip + size + 1 <= n,
        h <= num_constraints(size, n),
    ensures
        eval_spec(sy_upto(y, skip, size, n, h as int), x) == monomial_sum(x, y, skip, size, n, h),
        eval_spec(sx_upto(x, skip, size, n, h as int), y) == monomial_sum(x, y, skip, size, n, h),
    decreases h,
{
    let q = num_constraints(size, n);
    if h == 0 {
        lemma_eval_of_zeros(sy_upto(y, skip, size, n, 0), x);
        lemma_eval_of_zeros(sx_upto(x, skip, size, n, 0), y);
    } else {
        let i = h - 1;
        lemma_restrictions_upto(x, y, skip, size, n, i as nat);
        lemma_restrictions_share_their_monomials(x, y, skip, size, n, i);
        let k = constraint_position(skip, size, n, i);
        let in_x = fpow(x, k as nat);
        let in_y = fpow(y, (q - i) as nat);

        let before = sy_upto(y, skip, size, n, i);
        let after = sy_upto(y, skip, size, n, h as int);
        assert forall|k2: int| 0 <= k2 < 4 * n implies #[trigger] after[k2] == before.update(
            k,
            in_y,
        )[k2] by {
            lemma_constraint_at(skip, size, n, i, k2);
        }
        assert(after =~= before.update(k, in_y));
        lemma_constraint_at(skip, size, n, i, k);
        crate::polynomials::algebra::lemma_eval_update(before, k, in_y, x);
        crate::algebra::lemma_fmul_comm(in_y, in_x);

        let before = sx_upto(x, skip, size, n, i);
        let after = sx_upto(x, skip, size, n, h as int);
        assert(after =~= before.update(q - i, in_x));
        crate::polynomials::algebra::lemma_eval_update(before, q - i, in_x, y);
    }
}

/// The two restrictions of the staging polynomial agree: `s(X, y)` at `x`
/// is `s(x, Y)` at `y`, and both are the sum of the monomials of all
/// constraints at `(x, y)`.
pub proof fn lemma_restrictions_agree(x: nat, y: nat, skip: nat, size: nat, n: nat)
    requires
        skip + size + 1 <= n,
    ensures
        eval_spec(sy_spec(y, skip, size, n), x) == eval_spec(sx_spec(x, skip, size, n), y),
        eval_spec(sy_spec(y, skip, size, n), x) == monomial_sum(
            x,
            y,
            skip,
            size,
            n,
            num_constraints(size, n) as nat,
        ),
{
    let q = num_constraints(size, n);
    lemma_restrictions_upto(x, y, skip, size, n, q as nat);
    assert forall|k: int| 0 <= k < 4 * n implies #[trigger] sy_upto(y, skip, size, n, q)[k]
        == sy_spec(y, skip, size, n)[k] by {
        if q > 0 {
            lemma_constraint_at(skip, size, n, 0, k);
        }
    }
    assert(sy_upto(y, skip, size, n, q) =~= sy_spec(y, skip, size, n));
    assert(sx_upto(x, skip, size, n, q) =~= sx_spec(x, skip, size, n));
}

/// Coefficient `k` of `t(X, z)`.
pub open spec fn tz_coeff(z: nat, n: nat, k: int) -> nat {
    if k < 3 * n {
        0
    } else {
        let g = 4 * n - 1 - k;
        fneg(fadd(fpow(z, (2 * n - 1 - g) as nat), fpow(z, (2 * n + g) as nat)))
    }
}

/// The polynomial `t(X, z)`: `-(z^(2n - 1 - i) + z^(2n + i))` on wire `D` of
/// gate `i`, for every gate. Added to a dilated trace it cancels, in the
/// reversed dot product with the trace, what the multiplication gates
/// contribute.
pub open spec fn tz_spec(z: nat, n: nat) -> Seq<nat> {
    Seq::new(4 * n, |k: int| tz_coeff(z, n, k))
}

/// The trace of a stage satisfies the staging polynomial of that stage: its
/// reversed dot product with `s(X, y)` is zero, whatever the values of the
/// stage and whatever `y`.
pub proof fn lemma_stage_revdot_vanishes(
    stage_values: Seq<nat>,
    y: nat,
    skip: nat,
    size: nat,
    n: nat,
)
    requires
        skip + size + 1 <= n,
    ensures
        revdot_spec(rx_spec(stage_values, skip, size, n), sy_spec(y, skip, size, n)) == 0,
{
    let rx = rx_spec(stage_values, skip, size, n);
    let sy = sy_spec(y, skip, size, n);
    assert forall|k: int| 0 <= k < rx.len() implies rx[k] == 0 || sy[sy.len() - 1 - k] == 0 by {
        if k < n {
            if !(skip + 1 <= k <= skip + size) {
                lemma_fmul_zero(0);
            }
        }
    }
    lemma_revdot_disjoint(rx, sy, 4 * n);
}

/// Whether every value lies in the field.
pub open spec fn all_in_field(stage_values: Seq<nat>) -> bool {
    forall|i: int|
        0 <= i < stage_values.len() ==> #[trigger] stage_values[i] < crate::field::modulus()
}

/// What a trace of a stage pairs with once the multiplication gates are to
/// be checked: the trace at `zX`, and `t(X, z)`.
pub open spec fn gate_check(stage_values: Seq<nat>, z: nat, skip: nat, size: nat, n: nat) -> Seq<
    nat,
> {
    sum_spec(dilate_spec(rx_spec(stage_values, skip, size, n), z), tz_spec(z, n))
}

/// In the reversed dot product of a trace with its gate check, the three
/// terms that belong to one gate cancel.
proof fn lemma_gate_terms_cancel(
    stage_values: Seq<nat>,
    z: nat,
    skip: nat,
    size: nat,
    n: nat,
    g: int,
)
    requires
        all_in_field(stage_values),
        0 <= g < n,
    ensures
        ({
            let t = revdot_terms(
                rx_spec(stage_values, skip, size, n),
                gate_check(stage_values, z, skip, size, n),
            );
            fadd(fadd(t[g], t[2 * n - 1 - g]), t[2 * n + g]) == 0
        }),
{
    let rx = rx_spec(stage_values, skip, size, n);
    let dilated = dilate_spec(rx, z);
    let tz = tz_spec(z, n);
    let e = gate_check(stage_values, z, skip, size, n);
    let t = revdot_terms(rx, e);
    let a = stage_a(stage_values, skip, size, g);
    let b = stage_b(stage_values, skip, size, g);
    let p = fpow(z, (2 * n - 1 - g) as nat);
    let q = fpow(z, (2 * n + g) as nat);
    assert(p < crate::field::modulus() && q < crate::field::modulus());
    assert(a < crate::field::modulus() && b < crate::field::modulus());
    // Wire C of this gate against wire D of its partner.
    assert(rx[g] == fmul(a, b));
    assert(rx[4 * n - 1 - g] == 0);
    assert(dilated[4 * n - 1 - g] == fmul(0, fpow(z, (4 * n - 1 - g) as nat)));
    lemma_fmul_zero(fpow(z, (4 * n - 1 - g) as nat));
    assert(tz[4 * n - 1 - g] == fneg(fadd(p, q)));
    assert(e[4 * n - 1 - g] == fadd(0, fneg(fadd(p, q))));
    lemma_reduced(fneg(fadd(p, q)));
    assert(t[g] == fmul(fmul(a, b), fneg(fadd(p, q))));
    // Wire B of this gate against wire A of its partner.
    assert(rx[2 * n - 1 - g] == b);
    assert(rx[2 * n + g] == a);
    assert(dilated[2 * n + g] == fmul(a, q));
    assert(tz[2 * n + g] == 0);
    assert(e[2 * n + g] == fadd(fmul(a, q), 0));
    lemma_reduced(fmul(a, q));
    assert(t[2 * n - 1 - g] == fmul(b, fmul(a, q)));
    // Wire A of this gate against wire B of its partner.
    assert(dilated[2 * n - 1 - g] == fmul(b, p));
    assert(tz[2 * n - 1 - g] == 0);
    assert(e[2 * n - 1 - g] == fadd(fmul(b, p), 0));
    lemma_reduced(fmul(b, p));
    assert(t[2 * n + g] == fmul(a, fmul(b, p)));
    lemma_gate_cancels(a, b, p, q);
}

/// The terms of the first `m` gates cancel, wire by wire.
proof fn lemma_gates_cancel(
    stage_values: Seq<nat>,
    z: nat,
    skip: nat,
    size: nat,
    n: nat,
    m: int,
)
    requires
        all_in_field(stage_values),
        0 <= m <= n,
    ensures
        ({
            let t = revdot_terms(
                rx_spec(stage_values, skip, size, n),
                gate_check(stage_values, z, skip, size, n),
            );
            fadd(
                fadd(range_sum(t, 0, m), range_sum(t, 2 * n - m, (2 * n) as int)),
                range_sum(t, (2 * n) as int, 2 * n + m),
            ) == 0
        }),
    decreases m,
{
    let t = revdot_terms(
        rx_spec(stage_values, skip, size, n),
        gate_check(stage_values, z, skip, size, n),
    );
    if m == 0 {
        lemma_fadd_zeros();
    } else {
        let g = m - 1;
        lemma_gates_cancel(stage_values, z, skip, size, n, g);
        lemma_gate_terms_cancel(stage_values, z, skip, size, n, g);
        let twice = (2 * n) as int;
        let x = range_sum(t, 0, g);
        let y = range_sum(t, twice - g, twice);
        let w = range_sum(t, twice, twice + g);
        lemma_range_sum_in_field(t, 0, g);
        lemma_range_sum_in_field(t, twice - g, twice);
        lemma_range_sum_in_field(t, twice, twice + g);
        lemma_range_sum_first(t, twice - m, twice);
        assert(range_sum(t, 0, m) == fadd(x, t[g]));
        assert(range_sum(t, twice - m, twice) == fadd(t[twice - 1 - g], y));
        assert(range_sum(t, twice, twice + m) == fadd(w, t[twice + g]));
        lemma_fadd_regroup6(x, t[g], t[2 * n - 1 - g], y, w, t[2 * n + g]);
        lemma_fadd_zeros();
    }
}

/// The trace of a stage satisfies its multiplication gates: its reversed
/// dot product with its own dilation plus `t(X, z)` is zero, whatever the
/// values of the stage and whatever `z`.
pub proof fn lemma_stage_satisfies_its_gates(
    stage_values: Seq<nat>,
    z: nat,
    skip: nat,
    size: nat,
    n: nat,
)
    requires
        all_in_field(stage_values),
    ensures
        revdot_spec(
            rx_spec(stage_values, skip, size, n),
            gate_check(stage_values, z, skip, size, n),
        ) == 0,
{
    let rx = rx_spec(stage_values, skip, size, n);
    let e = gate_check(stage_values, z, skip, size, n);
    let t = revdot_terms(rx, e);
    lemma_revdot_is_range_sum(rx, e, 4 * n);
    lemma_gates_cancel(stage_values, z, skip, size, n, n as int);
    assert forall|k: int| 3 * n <= k < 4 * n implies t[k] == 0 by {
        assert(rx[k] == 0);
        lemma_fmul_zero(e[4 * n - 1 - k]);
    }
    let ni = n as int;
    lemma_range_sum_zero(t, 3 * ni, 4 * ni);
    lemma_range_sum_split(t, 0, 3 * ni, 4 * ni);
    lemma_range_sum_split(t, 0, 2 * ni, 3 * ni);
    lemma_range_sum_split(t, 0, ni, 2 * ni);
    lemma_fadd_zeros();
}

/// The trace of a stage satisfies the whole circuit of the stage: its
/// reversed dot product with the sum of its own dilation, the staging
/// polynomial `s(X, y)` and `t(X, z)` is zero, whatever the values of the
/// stage and whatever `y` and `z`.
pub proof fn lemma_stage_revdot_vanishes_with_gates(
    stage_values: Seq<nat>,
    y: nat,
    z: nat,
    skip: nat,
    size: nat,
    n: nat,
)
    requires
        all_in_field(stage_values),
        skip + size + 1 <= n,
    ensures
        revdot_spec(
            rx_spec(stage_values, skip, size, n),
            sum_spec(
                sum_spec(
                    dilate_spec(rx_spec(stage_values, skip, size, n), z),
                    sy_spec(y, skip, size, n),
                ),
                tz_spec(z, n),
            ),
        ) == 0,
{
    let rx = rx_spec(stage_values, skip, size, n);
    let dilated = dilate_spec(rx, z);
    let sy = sy_spec(y, skip, size, n);
    let tz = tz_spec(z, n);
    let len = 4 * n;
    lemma_revdot_sum_right(rx, sum_spec(dilated, sy), tz, len);
    lemma_revdot_sum_right(rx, dilated, sy, len);
    lemma_revdot_sum_right(rx, dilated, tz, len);
    lemma_stage_revdot_vanishes(stage_values, y, skip, size, n);
    lemma_stage_satisfies_its_gates(stage_values, z, skip, size, n);
    // revdot(rx, dilated) + 0 + revdot(rx, tz) == revdot(rx, dilated + tz) == 0
    let d = revdot_upto(rx, dilated, len);
    assert(d < crate::field::modulus()) by {
        lemma_range_sum_in_field(revdot_terms(rx, dilated), 0, len as int);
        lemma_revdot_is_range_sum(rx, dilated, len);
    }
    lemma_reduced(d);
}

/// The staging polynomial vanishes where one of its arguments is zero.
pub proof fn lemma_staging_vanishes_at_zero(x: nat, y: nat, skip: nat, size: nat, n: nat)
    requires
        skip + size + 1 <= n,
    ensures
        eval_spec(sy_spec(y, skip, size, n), 0) == 0,
        eval_spec(sy_spec(0, skip, size, n), x) == 0,
        eval_spec(sx_spec(x, skip, size, n), 0) == 0,
        eval_spec(sx_spec(0, skip, size, n), y) == 0,
{
    let sy = sy_spec(y, skip, size, n);
    let sx = sx_spec(x, skip, size, n);
    lemma_eval_at_zero(sy);
    lemma_eval_at_zero(sx);
    assert(sy[0] == 0);
    assert(sx[0] == 0);
    let sy0 = sy_spec(0, skip, size, n);
    let sx0 = sx_spec(0, skip, size, n);
    assert forall|k: int| 0 <= k < sy0.len() implies sy0[k] == 0 by {
        lemma_fpow_of_zero(
            (num_constraints(size, n) - 3 * enforced_before(skip, size, 2 * n - 1 - k)) as nat
        );
        lemma_fpow_of_zero(
            (num_constraints(size, n) - 3 * enforced_before(skip, size, k - 2 * n) - 1) as nat
        );
        lemma_fpow_of_zero(
            (num_constraints(size, n) - 3 * enforced_before(skip, size, 4 * n - 1 - k) - 2) as nat
        );
    }
    assert forall|j: int| 0 <= j < sx0.len() implies sx0[j] == 0 by {
        let q = num_constraints(size, n);
        if 0 < j <= q {
            let i = q - j;
            let g = if i / 3 < skip {
                1 + i / 3
            } else {
                1 + size + i / 3
            };
            lemma_fpow_of_zero((2 * n - 1 - g) as nat);
            lemma_fpow_of_zero((2 * n + g) as nat);
            lemma_fpow_of_zero((4 * n - 1 - g) as nat);
        }
    }
    lemma_eval_of_zeros(sy0, x);
    lemma_eval_of_zeros(sx0, y);
}

/// A stage of witness construction: how many values it holds and which
/// gates it owns.
#[derive(Clone, Copy, Debug, PartialEq, Eq, Structural)]
pub struct StagingCircuit {
    skip: usize,
    values: usize,
}

impl StagingCircuit {
    #[verifier::type_invariant]
    spec fn well_formed(self) -> bool {
        self.skip + (self.values + 1) / 2 <= usize::MAX
    }

    /// The number of values of the stage.
    pub closed spec fn spec_values(&self) -> nat {
        self.values as nat
    }

    /// The number of gates, after gate 0, that precede the stage.
    pub closed spec fn spec_skip(&self) -> nat {
        self.skip as nat
    }

    /// The number of gates of the stage: two values to a gate.
    pub open spec fn spec_size(&self) -> nat {
        (self.spec_values() + 1) / 2
    }

    /// The first stage, with the given number of values.
    pub fn root(values: usize) -> (r: StagingCircuit)
        ensures
            r.spec_values() == values,
            r.spec_skip() == 0,
    {
        StagingCircuit { skip: 0, values }
    }

    /// The stage that follows `base`, with the given number of values; none
    /// where the gates before it cannot be counted.
    pub fn after(base: &StagingCircuit, values: usize) -> (r: Option<StagingCircuit>)
        ensures
            r is Some <==> base.spec_skip() + base.spec_size() + (values + 1) / 2 <= usize::MAX,
            r matches Some(s) ==> s.spec_values() == values && s.spec_skip() == base.spec_skip()
                + base.spec_size(),
    {
        let skip = base.skip() + base.size();
        let size = values / 2 + values % 2;
        if size > usize::MAX - skip {
            None
        } else {
            Some(StagingCircuit { skip, values })
        }
    }

    /// The number of values of the stage.
    pub fn values(&self) -> (r: usize)
        ensures
            r == self.spec_values(),
    {
        self.values
    }

    /// The number of gates of the stage.
    pub fn size(&self) -> (r: usize)
        ensures
            r == self.spec_size(),
    {
        self.values / 2 + self.values % 2
    }

    /// The number of gates, after gate 0, that precede the stage.
    pub fn skip(&self) -> (r: usize)
        ensures
            r == self.spec_skip(),
            r + self.spec_size() <= usize::MAX,
    {
        proof {
            use_type_invariant(self);
        }
        self.skip
    }

    /// The trace polynomial of the stage for the given values. A stage that
    /// needs more gates than the rank offers is refused.
    pub fn rx(&self, stage_values: &Vec<Scalar>, rank: Rank) -> (r: Result<
        structured::Polynomial,
        Error,
    >)
        requires
            stage_values@.len() == self.spec_values(),
        ensures
            match r {
                Ok(p) => {
                    &&& self.spec_skip() + self.spec_size() + 1 <= rank.spec_n()
                    &&& p.spec_rank() == rank
                    &&& p@ == rx_spec(
                        values(stage_values@),
                        self.spec_skip(),
                        self.spec_size(),
                        rank.spec_n(),
                    )
                },
                Err(e) => {
                    &&& self.spec_skip() + self.spec_size() + 1 > rank.spec_n()
                    &&& e == Error::MultiplicationBoundExceeded(rank.spec_n() as usize)
                },
            },
    {
        let n = rank.n();
        let skip = self.skip();
        let size = self.size();
        if skip >= n || size >= n - skip {
            return Err(Error::MultiplicationBoundExceeded(n));
        }
        let ghost vals = values(stage_values@);
        let total = rank.num_coeffs();
        let mut coeffs: Vec<Scalar> = Vec::new();
        let mut k: usize = 0;
        while k < total
            invariant
                k <= total,
                total == 4 * n,
                1 <= n <= 0x1000_0000,
                skip + size + 1 <= n,
                skip == self.spec_skip(),
                size == self.spec_size(),
                stage_values@.len() == self.spec_values(),
                vals == values(stage_values@),
                coeffs@.len() == k,
                forall|i: int|
                    0 <= i < k ==> (#[trigger] coeffs@[i])@ == rx_coeff(
                        vals,
                        skip as nat,
                        size as nat,
                        n as nat,
                        i,
                    ),
            decreases total - k,
        {
            let c = if k < n {
                let a = stage_wire(stage_values, skip, size, k, 0);
                let b = stage_wire(stage_values, skip, size, k, 1);
                a.mul(&b)
            } else if k < 2 * n {
                stage_wire(stage_values, skip, size, 2 * n - 1 - k, 1)
            } else if k < 3 * n {
                stage_wire(stage_values, skip, size, k - 2 * n, 0)
            } else {
                Scalar::zero()
            };
            coeffs.push(c);
            k += 1;
        }
        assert(values(coeffs@) =~= rx_spec(vals, skip as nat, size as nat, n as nat));
        Ok(structured::Polynomial::from_dense(rank, coeffs))
    }

    /// The staging polynomial of the stage. A stage that needs more gates
    /// than the rank offers is refused.
    pub fn into_object(&self, rank: Rank) -> (r: Result<Staging, Error>)
        ensures
            match r {
                Ok(s) => {
                    &&& self.spec_skip() + self.spec_size() + 1 <= rank.spec_n()
                    &&& s.spec_skip() == self.spec_skip()
                    &&& s.spec_size() == self.spec_size()
                    &&& s.spec_rank() == rank
                },
                Err(e) => {
                    &&& self.spec_skip() + self.spec_size() + 1 > rank.spec_n()
                    &&& e == Error::MultiplicationBoundExceeded(rank.spec_n() as usize)
                },
            },
    {
        Staging::new(rank, self.skip(), self.size())
    }
}

/// The value of wire `A` (`offset` 0) or `B` (`offset` 1) of gate `g` in the
/// trace of a stage.
fn stage_wire(stage_values: &Vec<Scalar>, skip: usize, size: usize, g: usize, offset: usize) -> (r:
    Scalar)
    requires
        skip + size <= 0x1000_0000,
        g <= 0x1000_0000,
        offset <= 1,
    ensures
        offset == 0 ==> r@ == stage_a(values(stage_values@), skip as nat, size as nat, g as int),
        offset == 1 ==> r@ == stage_b(values(stage_values@), skip as nat, size as nat, g as int),
{
    if g > skip && g - skip <= size {
        let i = 2 * (g - skip - 1) + offset;
        if i < stage_values.len() {
            stage_values[i]
        } else {
            Scalar::zero()
        }
    } else {
        Scalar::zero()
    }
}

/// The staging polynomial of a stage, which forces every wire outside the
/// stage's gates and gate 0 to zero.
#[derive(Clone, Copy, Debug)]
pub struct Staging {
    skip: usize,
    size: usize,
    rank: Rank,
}

impl Staging {
    #[verifier::type_invariant]
    spec fn well_formed(self) -> bool {
        self.skip + self.size + 1 <= self.rank.spec_n()
    }

    /// The number of gates, after gate 0, that precede the stage.
    pub closed spec fn spec_skip(&self) -> nat {
        self.skip as nat
    }

    /// The number of gates of the stage.
    pub closed spec fn spec_size(&self) -> nat {
        self.size as nat
    }

    /// The rank.
    pub closed spec fn spec_rank(&self) -> Rank {
        self.rank
    }

    /// The staging polynomial for a stage of `size` gates after gate 0 and
    /// `skip` further gates. Gate 0 and the stage's gates must fit into the
    /// `n` gates of the rank: where `skip + size + 1 > n`, the stage is
    /// refused with the bound `n`.
    pub fn new(rank: Rank, skip: usize, size: usize) -> (r: Result<Staging, Error>)
        ensures
            match r {
                Ok(s) => {
                    &&& skip + size + 1 <= rank.spec_n()
                    &&& s.spec_skip() == skip
                    &&& s.spec_size() == size
                    &&& s.spec_rank() == rank
                },
                Err(e) => {
                    &&& skip + size + 1 > rank.spec_n()
                    &&& e == Error::MultiplicationBoundExceeded(rank.spec_n() as usize)
                },
            },
    {
        let n = rank.n();
        if skip >= n || size >= n - skip {
            return Err(Error::MultiplicationBoundExceeded(n));
        }
        Ok(Staging { skip, size, rank })
    }

    /// The polynomial `s(X, y)`.
    pub fn sy(&self, y: &Scalar) -> (r: structured::Polynomial)
        ensures
            r.spec_rank() == self.spec_rank(),
            r@ == sy_spec(y@, self.spec_skip(), self.spec_size(), self.spec_rank().spec_n()),
    {
        proof {
            use_type_invariant(self);
        }
        let n = self.rank.n();
        let skip = self.skip;
        let size = self.size;
        let q = 3 * (n - 1 - size);
        let total = self.rank.num_coeffs();
        let mut coeffs: Vec<Scalar> = Vec::new();
        let mut k: usize = 0;
        while k < total
            invariant
                k <= total,
                total == 4 * n,
                1 <= n <= 0x1000_0000,
                skip + size + 1 <= n,
                q == num_constraints(size as nat, n as nat),
                coeffs@.len() == k,
                forall|i: int|
                    0 <= i < k ==> (#[trigger] coeffs@[i])@ == sy_coeff(
                        y@,
                        skip as nat,
                        size as nat,
                        n as nat,
                        i,
                    ),
            decreases total - k,
        {
            let c = if k < n {
                Scalar::zero()
            } else {
                let (g, wire) = if k < 2 * n {
                    (2 * n - 1 - k, 0usize)
                } else if k < 3 * n {
                    (k - 2 * n, 1usize)
                } else {
                    (4 * n - 1 - k, 2usize)
                };
                if 1 <= g && g <= skip {
                    y.pow((q - 3 * (g - 1) - wire) as u64)
                } else if skip + size + 1 <= g {
                    y.pow((q - 3 * (g - 1 - size) - wire) as u64)
                } else {
                    Scalar::zero()
                }
            };
            coeffs.push(c);
            k += 1;
        }
        assert(values(coeffs@) =~= sy_spec(y@, skip as nat, size as nat, n as nat));
        structured::Polynomial::from_dense(self.rank, coeffs)
    }

    /// The polynomial `s(x, Y)`.
    pub fn sx(&self, x: &Scalar) -> (r: unstructured::Polynomial)
        ensures
            r.spec_rank() == self.spec_rank(),
            r@ == sx_spec(x@, self.spec_skip(), self.spec_size(), self.spec_rank().spec_n()),
    {
        proof {
            use_type_invariant(self);
        }
        let n = self.rank.n();
        let skip = self.skip;
        let size = self.size;
        let q = 3 * (n - 1 - size);
        let total = self.rank.num_coeffs();
        let mut coeffs: Vec<Scalar> = Vec::new();
        let mut j: usize = 0;
        while j < total
            invariant
                j <= total,
                total == 4 * n,
                1 <= n <= 0x1000_0000,
                skip + size + 1 <= n,
                q == num_constraints(size as nat, n as nat),
                coeffs@.len() == j,
                forall|i: int|
                    0 <= i < j ==> (#[trigger] coeffs@[i])@ == sx_coeff(
                        x@,
                        skip as nat,
                        size as nat,
                        n as nat,
                        i,
                    ),
            decreases total - j,
        {
            let c = if j == 0 || j > q {
                Scalar::zero()
            } else {
                let i = q - j;
                let g = if i / 3 < skip {
                    1 + i / 3
                } else {
                    1 + size + i / 3
                };
                if i % 3 == 0 {
                    x.pow((2 * n - 1 - g) as u64)
                } else if i % 3 == 1 {
                    x.pow((2 * n + g) as u64)
                } else {
                    x.pow((4 * n - 1 - g) as u64)
                }
            };
            coeffs.push(c);
            j += 1;
        }
        assert(values(coeffs@) =~= sx_spec(x@, skip as nat, size as nat, n as nat));
        unstructured::Polynomial::from_dense(self.rank, coeffs)
    }

    /// The value `s(x, y)`: the polynomial `s(X, y)` at `x`, which is the
    /// polynomial `s(x, Y)` at `y`.
    pub fn sxy(&self, x: &Scalar, y: &Scalar) -> (r: Scalar)
        ensures
            r@ == eval_spec(
                sy_spec(y@, self.spec_skip(), self.spec_size(), self.spec_rank().spec_n()),
                x@,
            ),
            r@ == eval_spec(
                sx_spec(x@, self.spec_skip(), self.spec_size(), self.spec_rank().spec_n()),
                y@,
            ),
    {
        proof {
            use_type_invariant(self);
            lemma_restrictions_agree(
                x@,
                y@,
                self.skip as nat,
                self.size as nat,
                self.rank.spec_n(),
            );
        }
        self.sy(y).eval(x)
    }
}

/// The polynomial `t(X, z)` of the rank.
pub fn tz(rank: Rank, z: &Scalar) -> (r: structured::Polynomial)
    ensures
        r.spec_rank() == rank,
        r@ == tz_spec(z@, rank.spec_n()),
{
    let n = rank.n();
    let total = rank.num_coeffs();
    let mut coeffs: Vec<Scalar> = Vec::new();
    let mut k: usize = 0;
    while k < total
        invariant
            k <= total,
            total == 4 * n,
            1 <= n <= 0x1000_0000,
            coeffs@.len() == k,
            forall|i: int| 0 <= i < k ==> (#[trigger] coeffs@[i])@ == tz_coeff(z@, n as nat, i),
        decreases total - k,
    {
        let c = if k < 3 * n {
            Scalar::zero()
        } else {
            let g = 4 * n - 1 - k;
            z.pow((2 * n - 1 - g) as u64).add(&z.pow((2 * n + g) as u64)).neg()
        };
        coeffs.push(c);
        k += 1;
    }
    assert(values(coeffs@) =~= tz_spec(z@, n as nat));
    structured::Polynomial::from_dense(rank, coeffs)
}

} // verus!
