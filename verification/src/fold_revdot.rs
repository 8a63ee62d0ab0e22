//! The folding reduction: many claims `revdot(a_i, b_i) = k_i` are collapsed
//! into one claim about two folded polynomials.
//!
//! Folding a list of polynomials with a scale `s` yields `sum of s^i * p_i`.
//! The reversed dot product of two folded lists is then the doubly weighted
//! sum of all pairwise products `revdot(a_i, b_j)`: the claimed values on the
//! diagonal and the error terms off it. [`lemma_revdot_of_folds`] proves this
//! for one layer and [`lemma_fold_consistency`] for the two layers that a
//! fusion applies.

use crate::algebra::lemma_fmul_zero;
use crate::error::Error;
use crate::field::fadd;
use crate::field::finv;
use crate::field::fmul;
use crate::field::Scalar;
use crate::polynomials::algebra::lemma_revdot_scale_left;
use crate::polynomials::algebra::lemma_revdot_scale_right;
use crate::polynomials::algebra::lemma_revdot_sum_left;
use crate::polynomials::algebra::lemma_revdot_sum_right;
use crate::polynomials::algebra::lemma_revdot_zero;
use crate::polynomials::algebra::zero_poly;
use crate::polynomials::eval_dense;
use crate::polynomials::eval_spec;
use crate::polynomials::revdot_spec;
use crate::polynomials::scale_spec;
use crate::polynomials::structured::Polynomial;
use crate::polynomials::sum_spec;
use crate::polynomials::values;
use crate::polynomials::Rank;
use vstd::prelude::*;

verus! {

/// The polynomials folded with `scale`: `p_0 + scale * (p_1 + scale * ...)`,
/// that is, the sum of `scale^i * p_i`.
pub open spec fn fold_polys_spec(polys: Seq<Seq<nat>>, scale: nat, len: nat) -> Seq<nat>
    decreases polys.len(),
{
    if polys.len() == 0 {
        zero_poly(len)
    } else {
        sum_spec(polys[0], scale_spec(fold_polys_spec(polys.skip(1), scale, len), scale))
    }
}

/// The products `revdot(x, ys[j])`, for every `j`.
pub open spec fn revdot_row(x: Seq<nat>, ys: Seq<Seq<nat>>) -> Seq<nat> {
    Seq::new(ys.len(), |j: int| revdot_spec(x, ys[j]))
}

/// The products `revdot(xs[i], y)`, for every `i`.
pub open spec fn revdot_column(xs: Seq<Seq<nat>>, y: Seq<nat>) -> Seq<nat> {
    Seq::new(xs.len(), |i: int| revdot_spec(xs[i], y))
}

/// All pairwise products: entry `(i, j)` is `revdot(xs[i], ys[j])`.
pub open spec fn revdot_matrix(xs: Seq<Seq<nat>>, ys: Seq<Seq<nat>>) -> Seq<Seq<nat>> {
    Seq::new(xs.len(), |i: int| revdot_row(xs[i], ys))
}

/// Each row of `t` folded with `column_scale`.
pub open spec fn collapse_rows(t: Seq<Seq<nat>>, column_scale: nat) -> Seq<nat> {
    Seq::new(t.len(), |i: int| eval_spec(t[i], column_scale))
}

/// The matrix `t` collapsed into one value: the sum over all `(i, j)` of
/// `row_scale^i * column_scale^j * t[i][j]`.
pub open spec fn collapse_spec(t: Seq<Seq<nat>>, row_scale: nat, column_scale: nat) -> nat {
    eval_spec(collapse_rows(t, column_scale), row_scale)
}

/// Whether every polynomial of the list has `len` coefficients.
pub open spec fn all_of_len(polys: Seq<Seq<nat>>, len: nat) -> bool {
    forall|i: int| 0 <= i < polys.len() ==> (#[trigger] polys[i]).len() == len
}

/// A folded list of polynomials of `len` coefficients has `len`
/// coefficients.
pub proof fn lemma_fold_len(polys: Seq<Seq<nat>>, scale: nat, len: nat)
    requires
        all_of_len(polys, len),
    ensures
        fold_polys_spec(polys, scale, len).len() == len,
    decreases polys.len(),
{
    if polys.len() > 0 {
        lemma_fold_len(polys.skip(1), scale, len);
    }
}

/// Folding the second argument of the reversed dot product folds the
/// products.
pub proof fn lemma_revdot_fold_right(x: Seq<nat>, ys: Seq<Seq<nat>>, scale: nat, len: nat)
    requires
        x.len() == len,
        all_of_len(ys, len),
    ensures
        revdot_spec(x, fold_polys_spec(ys, scale, len)) == eval_spec(revdot_row(x, ys), scale),
    decreases ys.len(),
{
    if ys.len() == 0 {
        lemma_revdot_zero(x, len, len);
    } else {
        let rest = ys.skip(1);
        let folded = fold_polys_spec(rest, scale, len);
        lemma_fold_len(rest, scale, len);
        lemma_revdot_fold_right(x, rest, scale, len);
        lemma_revdot_sum_right(x, ys[0], scale_spec(folded, scale), len);
        lemma_revdot_scale_right(x, folded, scale, len);
        assert(revdot_row(x, ys).skip(1) =~= revdot_row(x, rest));
    }
}

/// Folding the first argument of the reversed dot product folds the
/// products.
pub proof fn lemma_revdot_fold_left(xs: Seq<Seq<nat>>, y: Seq<nat>, scale: nat, len: nat)
    requires
        y.len() == len,
        all_of_len(xs, len),
    ensures
        revdot_spec(fold_polys_spec(xs, scale, len), y) == eval_spec(revdot_column(xs, y), scale),
    decreases xs.len(),
{
    if xs.len() == 0 {
        lemma_revdot_zero(y, len, len);
    } else {
        let rest = xs.skip(1);
        let folded = fold_polys_spec(rest, scale, len);
        lemma_fold_len(rest, scale, len);
        lemma_revdot_fold_left(rest, y, scale, len);
        lemma_revdot_sum_left(xs[0], scale_spec(folded, scale), y, len);
        lemma_revdot_scale_left(folded, scale, y, len);
        assert(revdot_column(xs, y).skip(1) =~= revdot_column(rest, y));
    }
}

/// One layer of the reduction is exact: the reversed dot product of two
/// folded lists equals the matrix of all pairwise products, collapsed with
/// the same two scales.
pub proof fn lemma_revdot_of_folds(
    a: Seq<Seq<nat>>,
    b: Seq<Seq<nat>>,
    row_scale: nat,
    column_scale: nat,
    len: nat,
)
    requires
        all_of_len(a, len),
        all_of_len(b, len),
    ensures
        revdot_spec(
            fold_polys_spec(a, row_scale, len),
            fold_polys_spec(b, column_scale, len),
        ) == collapse_spec(revdot_matrix(a, b), row_scale, column_scale),
{
    let folded_b = fold_polys_spec(b, column_scale, len);
    lemma_fold_len(b, column_scale, len);
    lemma_revdot_fold_left(a, folded_b, row_scale, len);
    assert forall|i: int| 0 <= i < a.len() implies revdot_spec(a[i], folded_b) == eval_spec(
        revdot_row(a[i], b),
        column_scale,
    ) by {
        lemma_revdot_fold_right(a[i], b, column_scale, len);
    }
    assert(revdot_column(a, folded_b) =~= collapse_rows(revdot_matrix(a, b), column_scale));
}

/// Whether a reduction of `n` groups of `m` claims can be counted on this
/// machine: there is a group and a claim, and the `n * m * m` entries of
/// the matrices of the first layer and the `n * n` entries of the matrix of
/// the second fit a `usize`.
pub open spec fn representable(n: nat, m: nat) -> bool {
    &&& 1 <= n
    &&& 1 <= m
    &&& n * m * m <= usize::MAX
    &&& n * n <= usize::MAX
}

/// Whether the `m * m` entries of a matrix of `m` claims fit a `usize`.
pub open spec fn countable(m: nat) -> bool {
    m * m <= usize::MAX
}

/// What can be counted where a reduction is representable.
pub proof fn lemma_representable(n: nat, m: nat)
    requires
        representable(n, m),
    ensures
        countable(n),
        countable(m),
        n * m <= usize::MAX,
        n * error_terms_len(m) <= usize::MAX,
        n * m * m == n * (m * m),
        m <= m * m,
        n <= n * n,
{
    assert(n * m * m == n * (m * m)) by (nonlinear_arith);
    assert(m <= m * m) by (nonlinear_arith)
        requires
            1 <= m,
    ;
    assert(n <= n * n) by (nonlinear_arith)
        requires
            1 <= n,
    ;
    assert(m * m <= n * (m * m)) by (nonlinear_arith)
        requires
            1 <= n,
    ;
    assert(n * m <= n * (m * m)) by (nonlinear_arith)
        requires
            m <= m * m,
    ;
    assert(n * (m * m - m) <= n * (m * m)) by (nonlinear_arith)
        requires
            0 <= m <= m * m,
    ;
}

/// The shape of the two-layer reduction: `n` groups of `m` claims each.
#[derive(Clone, Copy, Debug, PartialEq, Eq, Structural)]
pub struct Parameters {
    n: usize,
    m: usize,
}

impl Parameters {
    #[verifier::type_invariant]
    spec fn well_formed(self) -> bool {
        representable(self.n as nat, self.m as nat)
    }

    /// The number of groups.
    pub closed spec fn spec_n(&self) -> nat {
        self.n as nat
    }

    /// The number of claims in a group.
    pub closed spec fn spec_m(&self) -> nat {
        self.m as nat
    }

    /// `n` groups of `m` claims: at least one group and one claim, and no
    /// more than can be counted.
    pub fn new(n: usize, m: usize) -> (r: Option<Parameters>)
        ensures
            r is Some <==> representable(n as nat, m as nat),
            r matches Some(p) ==> p.spec_n() == n && p.spec_m() == m,
    {
        if n == 0 || m == 0 {
            return None;
        }
        proof {
            assert(n * m * m == (n * m) * m) by (nonlinear_arith);
            assert(n * m <= (n * m) * m) by (nonlinear_arith)
                requires
                    1 <= m,
            ;
        }
        let claims = match n.checked_mul(m) {
            Some(v) => v,
            None => {
                return None;
            },
        };
        if claims.checked_mul(m).is_none() || n.checked_mul(n).is_none() {
            return None;
        }
        Some(Parameters { n, m })
    }

    /// The number of groups.
    pub fn n(&self) -> (r: usize)
        ensures
            r == self.spec_n(),
            representable(self.spec_n(), self.spec_m()),
    {
        proof {
            use_type_invariant(self);
        }
        self.n
    }

    /// The number of claims in a group.
    pub fn m(&self) -> (r: usize)
        ensures
            r == self.spec_m(),
            representable(self.spec_n(), self.spec_m()),
    {
        proof {
            use_type_invariant(self);
        }
        self.m
    }

    /// The number of error terms of one group, `m * m - m`.
    pub fn error_terms_per_group(&self) -> (r: usize)
        ensures
            r == error_terms_len(self.spec_m()),
    {
        proof {
            use_type_invariant(self);
            lemma_representable(self.n as nat, self.m as nat);
        }
        self.m * self.m - self.m
    }

    /// The number of error terms of the first layer, `n * (m * m - m)`.
    pub fn num_error_terms(&self) -> (r: usize)
        ensures
            r == self.spec_n() * error_terms_len(self.spec_m()),
    {
        proof {
            use_type_invariant(self);
            lemma_representable(self.n as nat, self.m as nat);
        }
        self.n * (self.m * self.m - self.m)
    }

    /// The number of claims in all, `n * m`.
    pub fn num_claims(&self) -> (r: usize)
        ensures
            r == self.spec_n() * self.spec_m(),
    {
        proof {
            use_type_invariant(self);
            lemma_representable(self.n as nat, self.m as nat);
        }
        self.n * self.m
    }
}

/// The number of error terms of a group of `m` claims: the entries off the
/// diagonal of an `m` by `m` matrix.
pub open spec fn error_terms_len(m: nat) -> nat {
    (m * m - m) as nat
}

/// Where the error term for the pair `(i, j)`, `i != j`, stands among the
/// error terms of a group of `m` claims: rows in order, the diagonal left
/// out.
pub open spec fn error_index(m: nat, i: nat, j: nat) -> int {
    i * (m - 1) + if j < i {
        j as int
    } else {
        j - 1
    }
}

/// The matrix with the claimed values on its diagonal and the error terms
/// off it.
pub open spec fn claim_matrix(error_terms: Seq<nat>, ky_values: Seq<nat>) -> Seq<Seq<nat>> {
    let m = ky_values.len();
    Seq::new(
        m,
        |i: int|
            Seq::new(
                m,
                |j: int|
                    if i == j {
                        ky_values[i]
                    } else {
                        error_terms[error_index(m, i as nat, j as nat)]
                    },
            ),
    )
}

/// The coefficients of each polynomial of a list.
pub open spec fn views(polys: Seq<Polynomial>) -> Seq<Seq<nat>> {
    Seq::new(polys.len(), |i: int| polys[i]@)
}

/// Whether every polynomial of the list has the given rank.
pub open spec fn all_of_rank(polys: Seq<Polynomial>, rank: Rank) -> bool {
    forall|i: int| 0 <= i < polys.len() ==> (#[trigger] polys[i]).spec_rank() == rank
}

/// The values folded with `scale`: the sum of `scale^i * values[i]`.
pub fn fold(values: &Vec<Scalar>, scale: &Scalar) -> (r: Scalar)
    ensures
        r@ == eval_spec(crate::polynomials::values(values@), scale@),
{
    eval_dense(values, scale)
}

/// The `count` polynomials from `start` on, folded with `scale`.
pub fn fold_polys_range(
    polys: &Vec<Polynomial>,
    start: usize,
    count: usize,
    scale: &Scalar,
    rank: Rank,
) -> (r: Polynomial)
    requires
        start + count <= polys@.len(),
        all_of_rank(polys@, rank),
    ensures
        r.spec_rank() == rank,
        r@ == fold_polys_spec(
            views(polys@).subrange(start as int, start + count),
            scale@,
            rank.spec_num_coeffs(),
        ),
{
    let ghost all = views(polys@).subrange(start as int, start + count);
    let ghost len = rank.spec_num_coeffs();
    let total = polys.len();
    let mut acc = Polynomial::new(rank);
    let mut i: usize = count;
    assert(acc@ =~= zero_poly(len));
    assert(all.subrange(count as int, count as int) =~= Seq::<Seq<nat>>::empty());
    while i > 0
        invariant
            i <= count,
            start + count <= total,
            total == polys@.len(),
            all_of_rank(polys@, rank),
            acc@.len() == len,
            all == views(polys@).subrange(start as int, start + count),
            len == rank.spec_num_coeffs(),
            acc.spec_rank() == rank,
            acc@ == fold_polys_spec(all.subrange(i as int, count as int), scale@, len),
        decreases i,
    {
        i -= 1;
        let ghost before = acc@;
        let p = &polys[start + i];
        assert(p.spec_rank() == rank);
        let _ = p.rank();
        acc.scale(scale);
        acc.add_assign(p);
        proof {
            let s = all.subrange(i as int, count as int);
            assert(s.skip(1) =~= all.subrange(i + 1, count as int));
            assert(s[0] == p@);
            let scaled = scale_spec(before, scale@);
            assert forall|k: int| 0 <= k < len implies acc@[k] == sum_spec(p@, scaled)[k] by {
                crate::algebra::lemma_fadd_comm(scaled[k], p@[k]);
            }
            assert(acc@ =~= sum_spec(p@, scaled));
        }
    }
    assert(all.subrange(0, count as int) =~= all);
    acc
}

/// The polynomials folded with `scale`: the sum of `scale^i * polys[i]`.
pub fn fold_polys(polys: &Vec<Polynomial>, scale: &Scalar, rank: Rank) -> (r: Polynomial)
    requires
        all_of_rank(polys@, rank),
    ensures
        r.spec_rank() == rank,
        r@ == fold_polys_spec(views(polys@), scale@, rank.spec_num_coeffs()),
{
    assert(views(polys@).subrange(0, polys@.len() as int) =~= views(polys@));
    fold_polys_range(polys, 0, polys.len(), scale, rank)
}

/// The error terms of one row lie in that row's stretch of the vector, and
/// the rows follow one another.
proof fn lemma_error_index_in_row(m: nat, i: nat, j: nat)
    requires
        i < m,
        j < m,
        i != j,
    ensures
        i * (m - 1) <= error_index(m, i, j) < i * (m - 1) + (m - 1),
        (i + 1) * (m - 1) == i * (m - 1) + (m - 1),
        0 <= i * (m - 1),
{
    assert((i + 1) * (m - 1) == i * (m - 1) + (m - 1)) by (nonlinear_arith);
    assert(0 <= i * (m - 1)) by (nonlinear_arith)
        requires
            m >= 1,
    ;
}

/// A row ends before any later row begins.
proof fn lemma_error_rows_ordered(m: nat, a: nat, b: nat)
    requires
        m >= 1,
        a < b,
    ensures
        a * (m - 1) + (m - 1) <= b * (m - 1),
{
    assert(a * (m - 1) + (m - 1) <= b * (m - 1)) by (nonlinear_arith)
        requires
            m >= 1,
            a + 1 <= b,
    ;
}

/// The size of a full matrix without its diagonal.
proof fn lemma_error_terms_len(m: nat)
    ensures
        error_terms_len(m) == m * (m - 1),
        m * m >= m,
{
    assert(m * m - m == m * (m - 1)) by (nonlinear_arith);
    assert(m * m >= m) by (nonlinear_arith);
}

/// The error terms of the `m` claims from `start` on: `revdot(a_i, b_j)` for
/// every pair `i != j` of the group, rows in order.
pub fn compute_errors_range(
    a: &Vec<Polynomial>,
    b: &Vec<Polynomial>,
    start: usize,
    m: usize,
    rank: Rank,
) -> (r: Vec<Scalar>)
    requires
        start + m <= a@.len(),
        a@.len() == b@.len(),
        countable(m as nat),
        all_of_rank(a@, rank),
        all_of_rank(b@, rank),
    ensures
        r@.len() == error_terms_len(m as nat),
        forall|i: nat, j: nat|
            i < m && j < m && i != j ==> (#[trigger] r@[error_index(m as nat, i, j)])@
                == revdot_spec(a@[start + i]@, b@[start + j]@),
{
    let total = a.len();
    let mut r: Vec<Scalar> = Vec::new();
    let mut base: usize = 0;
    let mut i: usize = 0;
    proof {
        lemma_error_terms_len(m as nat);
        assert(0 * (m - 1) == 0) by (nonlinear_arith);
    }
    while i < m
        invariant
            i <= m,
            countable(m as nat),
            start + m <= total,
            total == a@.len(),
            total == b@.len(),
            all_of_rank(a@, rank),
            all_of_rank(b@, rank),
            base == i * (m - 1),
            r@.len() == base,
            forall|i2: nat, j2: nat|
                i2 < i && j2 < m && i2 != j2 ==> (#[trigger] r@[error_index(m as nat, i2, j2)])@
                    == revdot_spec(a@[start + i2]@, b@[start + j2]@),
        decreases m - i,
    {
        let mut j: usize = 0;
        proof {
            assert((i + 1) * (m - 1) == i * (m - 1) + (m - 1)) by (nonlinear_arith);
            assert(i * (m - 1) + (m - 1) <= m * m) by (nonlinear_arith)
                requires
                    i < m,
                    1 <= m,
            ;
        }
        while j < m
            invariant
                i < m,
                j <= m,
                start + m <= total,
                total == a@.len(),
                total == b@.len(),
                all_of_rank(a@, rank),
                all_of_rank(b@, rank),
                base == i * (m - 1),
                base + (m - 1) <= usize::MAX,
                r@.len() == base + if j <= i {
                    j as int
                } else {
                    j - 1
                },
                forall|i2: nat, j2: nat|
                    i2 < i && j2 < m && i2 != j2 ==> (#[trigger] r@[error_index(
                        m as nat,
                        i2,
                        j2,
                    )])@ == revdot_spec(a@[start + i2]@, b@[start + j2]@),
                forall|j2: nat|
                    j2 < j && j2 != i ==> (#[trigger] r@[error_index(m as nat, i as nat, j2)])@
                        == revdot_spec(a@[start + i]@, b@[start + j2]@),
            decreases m - j,
        {
            if i != j {
                let x = &a[start + i];
                let y = &b[start + j];
                assert(x.spec_rank() == rank && y.spec_rank() == rank);
                let e = x.revdot(y);
                let ghost before = r@;
                r.push(e);
                proof {
                    assert forall|i2: nat, j2: nat| i2 < i && j2 < m && i2 != j2 implies (
                    #[trigger] r@[error_index(m as nat, i2, j2)])@ == revdot_spec(
                        a@[start + i2]@,
                        b@[start + j2]@,
                    ) by {
                        lemma_error_index_in_row(m as nat, i2, j2);
                        lemma_error_rows_ordered(m as nat, i2, i as nat);
                        assert(r@[error_index(m as nat, i2, j2)] == before[error_index(
                            m as nat,
                            i2,
                            j2,
                        )]);
                    }
                    assert forall|j2: nat| j2 < j + 1 && j2 != i implies (#[trigger] r@[error_index(
                        m as nat,
                        i as nat,
                        j2,
                    )])@ == revdot_spec(a@[start + i]@, b@[start + j2]@) by {
                        if j2 < j {
                            assert(r@[error_index(m as nat, i as nat, j2)] == before[error_index(
                                m as nat,
                                i as nat,
                                j2,
                            )]);
                        }
                    }
                }
            }
            j += 1;
        }
        base = base + (m - 1);
        i += 1;
    }
    r
}

/// The error terms of a list of claims: `revdot(a_i, b_j)` for every pair
/// `i != j`, rows in order.
pub fn compute_errors(a: &Vec<Polynomial>, b: &Vec<Polynomial>, rank: Rank) -> (r: Vec<Scalar>)
    requires
        a@.len() == b@.len(),
        countable(a@.len()),
        all_of_rank(a@, rank),
        all_of_rank(b@, rank),
    ensures
        r@.len() == error_terms_len(a@.len()),
        forall|i: nat, j: nat|
            i < a@.len() && j < a@.len() && i != j ==> (#[trigger] r@[error_index(
                a@.len(),
                i,
                j,
            )])@ == revdot_spec(a@[i as int]@, b@[j as int]@),
{
    compute_errors_range(a, b, 0, a.len(), rank)
}

/// The claimed values and error terms of a group collapsed into one value:
/// the sum over all `(i, j)` of `mu^(-i) * (mu * nu)^j` times the claimed
/// value `ky_values[i]` where `i == j`, and times the error term for
/// `(i, j)` elsewhere.
pub fn compute_c(
    mu: &Scalar,
    nu: &Scalar,
    error_terms: &Vec<Scalar>,
    ky_values: &Vec<Scalar>,
) -> (r: Result<Scalar, Error>)
    ensures
        match r {
            Ok(c) => {
                &&& error_terms@.len() == error_terms_len(ky_values@.len())
                &&& mu@ != 0
                &&& c@ == collapse_spec(
                    claim_matrix(values(error_terms@), values(ky_values@)),
                    finv(mu@),
                    fmul(mu@, nu@),
                )
            },
            Err(e) => {
                if error_terms@.len() != error_terms_len(ky_values@.len()) {
                    e == Error::LengthMismatch
                } else {
                    mu@ == 0 && e == Error::DomainPointInvalid
                }
            },
        },
{
    let m = ky_values.len();
    let given = error_terms.len();
    proof {
        lemma_error_terms_len(m as nat);
    }
    if m == 0 {
        if given != 0 {
            return Err(Error::LengthMismatch);
        }
    } else {
        let rest = m - 1;
        assert(m * m - m == m * rest) by (nonlinear_arith)
            requires
                rest == m - 1,
        ;
        match m.checked_mul(rest) {
            Some(len) => {
                if given != len {
                    return Err(Error::LengthMismatch);
                }
            },
            None => {
                return Err(Error::LengthMismatch);
            },
        }
    }
    let mu_inv = match mu.invert() {
        Some(inv) => inv,
        None => {
            return Err(Error::DomainPointInvalid);
        },
    };
    let munu = mu.mul(nu);
    let ghost t = claim_matrix(values(error_terms@), values(ky_values@));
    let mut rows: Vec<Scalar> = Vec::new();
    let mut base: usize = 0;
    let mut i: usize = 0;
    proof {
        assert(0 * (m - 1) == 0) by (nonlinear_arith);
    }
    while i < m
        invariant
            i <= m,
            m == ky_values@.len(),
            error_terms@.len() == m * (m - 1),
            t == claim_matrix(values(error_terms@), values(ky_values@)),
            base == i * (m - 1),
            m * (m - 1) <= usize::MAX,
            rows@.len() == i,
            forall|k: int| 0 <= k < i ==> (#[trigger] rows@[k])@ == eval_spec(t[k], munu@),
        decreases m - i,
    {
        let mut row: Vec<Scalar> = Vec::new();
        let mut j: usize = 0;
        proof {
            assert((i + 1) * (m - 1) == i * (m - 1) + (m - 1)) by (nonlinear_arith);
            lemma_error_rows_ordered(m as nat, i as nat, m as nat);
        }
        while j < m
            invariant
                i < m,
                j <= m,
                m == ky_values@.len(),
                error_terms@.len() == m * (m - 1),
                t == claim_matrix(values(error_terms@), values(ky_values@)),
                base == i * (m - 1),
                base + (m - 1) <= m * (m - 1),
                m * (m - 1) <= usize::MAX,
                row@.len() == j,
                forall|k: int| 0 <= k < j ==> (#[trigger] row@[k])@ == t[i as int][k],
            decreases m - j,
        {
            if i == j {
                row.push(ky_values[i]);
            } else if j < i {
                row.push(error_terms[base + j]);
            } else {
                row.push(error_terms[base + j - 1]);
            }
            j += 1;
        }
        assert(values(row@) =~= t[i as int]);
        rows.push(eval_dense(&row, &munu));
        base = base + (m - 1);
        i += 1;
    }
    assert(values(rows@) =~= collapse_rows(t, munu@));
    Ok(eval_dense(&rows, &mu_inv))
}

/// The values of each chunk of `m` sources folded with `scale`; the last
/// chunk may be shorter.
pub open spec fn chunk_folds(sources: Seq<nat>, m: nat, scale: nat) -> Seq<nat>
    decreases sources.len(),
{
    if sources.len() == 0 || m == 0 {
        Seq::empty()
    } else {
        let k = if m < sources.len() {
            m
        } else {
            sources.len()
        };
        seq![eval_spec(sources.take(k as int), scale)] + chunk_folds(
            sources.skip(k as int),
            m,
            scale,
        )
    }
}

/// The sources folded in two layers: chunks of `m` with `layer1_scale`, the
/// results, filled up with zeros to `n` of them, with `layer2_scale`.
pub open spec fn two_layer_spec(
    sources: Seq<nat>,
    n: nat,
    m: nat,
    layer1_scale: nat,
    layer2_scale: nat,
) -> nat {
    let folds = chunk_folds(sources, m, layer1_scale);
    let len = if folds.len() < n {
        n
    } else {
        folds.len()
    };
    eval_spec(crate::polynomials::unstructured::padded(folds, len), layer2_scale)
}

/// Zeros appended to a list do not change what it folds to.
pub proof fn lemma_eval_padded(c: Seq<nat>, len: nat, x: nat)
    requires
        c.len() <= len,
    ensures
        eval_spec(crate::polynomials::unstructured::padded(c, len), x) == eval_spec(c, x),
    decreases len,
{
    let p = crate::polynomials::unstructured::padded(c, len);
    if len == 0 {
        assert(c =~= p);
    } else if c.len() == 0 {
        let rest = crate::polynomials::unstructured::padded(c, (len - 1) as nat);
        assert(p.skip(1) =~= rest);
        lemma_eval_padded(c, (len - 1) as nat, x);
        lemma_fmul_zero(x);
        crate::algebra::lemma_fadd_zeros();
    } else {
        let rest = crate::polynomials::unstructured::padded(c.skip(1), (len - 1) as nat);
        assert(p.skip(1) =~= rest);
        lemma_eval_padded(c.skip(1), (len - 1) as nat, x);
    }
}

/// The groups that zero-padding adds contribute nothing: the two-layer fold
/// is the fold of the chunk values, whatever `n` is.
pub proof fn lemma_two_layer_padding(
    sources: Seq<nat>,
    n: nat,
    m: nat,
    layer1_scale: nat,
    layer2_scale: nat,
)
    ensures
        two_layer_spec(sources, n, m, layer1_scale, layer2_scale) == eval_spec(
            chunk_folds(sources, m, layer1_scale),
            layer2_scale,
        ),
{
    let folds = chunk_folds(sources, m, layer1_scale);
    let len = if folds.len() < n {
        n
    } else {
        folds.len()
    };
    lemma_eval_padded(folds, len, layer2_scale);
}

/// The value of a list with one more value in front.
proof fn lemma_eval_cons(v: nat, rest: Seq<nat>, x: nat)
    ensures
        eval_spec(seq![v] + rest, x) == fadd(v, fmul(x, eval_spec(rest, x))),
{
    let c = seq![v] + rest;
    assert(c.skip(1) =~= rest);
}

/// Zeros appended to the sources do not change what the chunks fold to.
proof fn lemma_chunks_of_padded(sources: Seq<nat>, len: nat, m: nat, scale: nat, outer: nat)
    requires
        sources.len() <= len,
    ensures
        eval_spec(
            chunk_folds(crate::polynomials::unstructured::padded(sources, len), m, scale),
            outer,
        ) == eval_spec(chunk_folds(sources, m, scale), outer),
    decreases len,
{
    let p = crate::polynomials::unstructured::padded(sources, len);
    if m == 0 {
    } else if len == 0 {
        assert(p =~= sources);
    } else {
        let k = if m < len {
            m
        } else {
            len
        };
        let rest_p = p.skip(k as int);
        let first_p = eval_spec(p.take(k as int), scale);
        lemma_eval_cons(first_p, chunk_folds(rest_p, m, scale), outer);
        if sources.len() == 0 {
            crate::polynomials::algebra::lemma_eval_of_zeros(p.take(k as int), scale);
            assert(rest_p =~= crate::polynomials::unstructured::padded(sources, (len - k) as nat));
            lemma_chunks_of_padded(sources, (len - k) as nat, m, scale, outer);
            lemma_fmul_zero(outer);
            crate::algebra::lemma_fadd_zeros();
        } else if sources.len() >= m {
            let rest_s = sources.skip(m as int);
            assert(p.take(m as int) =~= sources.take(m as int));
            assert(rest_p =~= crate::polynomials::unstructured::padded(rest_s, (len - m) as nat));
            lemma_chunks_of_padded(rest_s, (len - m) as nat, m, scale, outer);
            lemma_eval_cons(
                eval_spec(sources.take(m as int), scale),
                chunk_folds(rest_s, m, scale),
                outer,
            );
        } else {
            let all = sources.len() as int;
            let rest_s = sources.skip(all);
            assert(sources.take(all) =~= sources);
            assert(rest_s =~= Seq::<nat>::empty());
            assert(p.take(k as int) =~= crate::polynomials::unstructured::padded(sources, k));
            lemma_eval_padded(sources, k, scale);
            assert(rest_p =~= crate::polynomials::unstructured::padded(rest_s, (len - k) as nat));
            lemma_chunks_of_padded(rest_s, (len - k) as nat, m, scale, outer);
            lemma_eval_cons(eval_spec(sources, scale), chunk_folds(rest_s, m, scale), outer);
        }
    }
}

/// Zero sources appended to the sources do not change what they fold to in
/// two layers, however many are appended: a last chunk that zeros fill up
/// folds to what it folded to, and a chunk of zeros alone contributes
/// nothing.
pub proof fn lemma_zero_sources_contribute_nothing(
    sources: Seq<nat>,
    len: nat,
    n: nat,
    m: nat,
    layer1_scale: nat,
    layer2_scale: nat,
)
    requires
        sources.len() <= len,
    ensures
        two_layer_spec(
            crate::polynomials::unstructured::padded(sources, len),
            n,
            m,
            layer1_scale,
            layer2_scale,
        ) == two_layer_spec(sources, n, m, layer1_scale, layer2_scale),
{
    let p = crate::polynomials::unstructured::padded(sources, len);
    lemma_two_layer_padding(p, n, m, layer1_scale, layer2_scale);
    lemma_two_layer_padding(sources, n, m, layer1_scale, layer2_scale);
    lemma_chunks_of_padded(sources, len, m, layer1_scale, layer2_scale);
}

/// Folds the sources in two layers: chunks of `m` with `layer1_scale`, the
/// results, filled up with zeros to `n` of them, with `layer2_scale`.
pub fn fold_two_layer(
    sources: &Vec<Scalar>,
    layer1_scale: &Scalar,
    layer2_scale: &Scalar,
    params: Parameters,
) -> (r: Scalar)
    ensures
        r@ == two_layer_spec(
            values(sources@),
            params.spec_n(),
            params.spec_m(),
            layer1_scale@,
            layer2_scale@,
        ),
{
    let n = params.n();
    let m = params.m();
    let len = sources.len();
    let ghost all = values(sources@);
    let mut results: Vec<Scalar> = Vec::new();
    let mut start: usize = 0;
    assert(all.skip(0) =~= all);
    while start < len
        invariant
            start <= len,
            len == sources@.len(),
            all == values(sources@),
            1 <= m,
            values(results@) + chunk_folds(all.skip(start as int), m as nat, layer1_scale@)
                == chunk_folds(all, m as nat, layer1_scale@),
        decreases len - start,
    {
        let k = if m < len - start {
            m
        } else {
            len - start
        };
        let mut chunk: Vec<Scalar> = Vec::new();
        let mut i: usize = 0;
        while i < k
            invariant
                i <= k,
                start + k <= len,
                len == sources@.len(),
                chunk@.len() == i,
                forall|q: int| 0 <= q < i ==> chunk@[q] == sources@[start + q],
            decreases k - i,
        {
            chunk.push(sources[start + i]);
            i += 1;
        }
        let ghost before = values(results@);
        let ghost tail = all.skip(start as int);
        assert(values(chunk@) =~= tail.take(k as int));
        results.push(eval_dense(&chunk, layer1_scale));
        proof {
            assert(tail.skip(k as int) =~= all.skip(start + k));
            assert(
                values(results@) =~= before + seq![eval_spec(tail.take(k as int), layer1_scale@)]
            );
            assert(values(results@) + chunk_folds(all.skip(start + k), m as nat, layer1_scale@)
                =~= before + chunk_folds(tail, m as nat, layer1_scale@));
        }
        start = start + k;
    }
    let ghost folds = values(results@);
    assert(folds =~= chunk_folds(all, m as nat, layer1_scale@)) by {
        assert(all.skip(len as int).len() == 0);
    }
    while results.len() < n
        invariant
            folds.len() <= results@.len(),
            results@.len() == folds.len() || results@.len() <= n,
            forall|q: int| 0 <= q < folds.len() ==> (#[trigger] results@[q])@ == folds[q],
            forall|q: int| folds.len() <= q < results@.len() ==> (#[trigger] results@[q])@ == 0,
        decreases n - results@.len(),
    {
        results.push(Scalar::zero());
    }
    assert(values(results@) =~= crate::polynomials::unstructured::padded(
        folds,
        results@.len() as nat,
    ));
    eval_dense(&results, layer2_scale)
}

/// The `g`-th group of `m` polynomials of a flat list.
pub open spec fn group(polys: Seq<Seq<nat>>, g: nat, m: nat) -> Seq<Seq<nat>> {
    polys.subrange((g * m) as int, (g * m + m) as int)
}

/// Each of the `n` groups of `m` polynomials folded with `scale`.
pub open spec fn folded_groups(polys: Seq<Seq<nat>>, n: nat, m: nat, scale: nat, len: nat) -> Seq<
    Seq<nat>,
> {
    Seq::new(n, |g: int| fold_polys_spec(group(polys, g as nat, m), scale, len))
}

/// The value that each of the `n` groups collapses to in the first layer:
/// its claimed values and error terms under the scales of that layer.
pub open spec fn layer_one_values(
    a: Seq<Seq<nat>>,
    b: Seq<Seq<nat>>,
    n: nat,
    m: nat,
    row_scale: nat,
    column_scale: nat,
) -> Seq<nat> {
    Seq::new(
        n,
        |g: int|
            collapse_spec(
                revdot_matrix(group(a, g as nat, m), group(b, g as nat, m)),
                row_scale,
                column_scale,
            ),
    )
}

/// The matrix of the second layer: on the diagonal the values that the
/// groups collapsed to, off it the error terms between the folded groups.
pub open spec fn layer_two_matrix(
    a: Seq<Seq<nat>>,
    b: Seq<Seq<nat>>,
    n: nat,
    m: nat,
    row_scale: nat,
    column_scale: nat,
    len: nat,
) -> Seq<Seq<nat>> {
    let folded_a = folded_groups(a, n, m, row_scale, len);
    let folded_b = folded_groups(b, n, m, column_scale, len);
    let collapsed = layer_one_values(a, b, n, m, row_scale, column_scale);
    Seq::new(
        n,
        |i: int|
            Seq::new(
                n,
                |j: int|
                    if i == j {
                        collapsed[i]
                    } else {
                        revdot_spec(folded_a[i], folded_b[j])
                    },
            ),
    )
}

/// A group of a list of `n * m` polynomials lies within the list.
proof fn lemma_group_bounds(n: nat, m: nat, g: nat)
    requires
        g < n,
    ensures
        0 <= g * m,
        g * m + m <= n * m,
        (g + 1) * m == g * m + m,
{
    assert(g * m + m <= n * m) by (nonlinear_arith)
        requires
            g + 1 <= n,
    ;
    assert((g + 1) * m == g * m + m) by (nonlinear_arith);
}

/// Where the claimed values are the products on the diagonal and the error
/// terms the products off it, the matrix of claims is the matrix of all
/// pairwise products.
pub proof fn lemma_claims_match(
    a: Seq<Seq<nat>>,
    b: Seq<Seq<nat>>,
    error_terms: Seq<nat>,
    ky_values: Seq<nat>,
)
    requires
        a.len() == b.len(),
        ky_values.len() == a.len(),
        forall|i: int| 0 <= i < a.len() ==> ky_values[i] == revdot_spec(a[i], b[i]),
        forall|i: nat, j: nat|
            i < a.len() && j < a.len() && i != j ==> #[trigger] error_terms[error_index(
                a.len(),
                i,
                j,
            )] == revdot_spec(a[i as int], b[j as int]),
    ensures
        claim_matrix(error_terms, ky_values) == revdot_matrix(a, b),
{
    let m = a.len();
    let t = claim_matrix(error_terms, ky_values);
    let r = revdot_matrix(a, b);
    assert forall|i: int| 0 <= i < m implies t[i] == r[i] by {
        assert forall|j: int| 0 <= j < m implies t[i][j] == r[i][j] by {
            if i != j {
                assert(error_terms[error_index(m, i as nat, j as nat)] == revdot_spec(
                    a[i],
                    b[j],
                ));
            }
        }
        assert(t[i] =~= r[i]);
    }
    assert(t =~= r);
}

/// The two layers of the reduction are exact. Fold each of the `n` groups of
/// `m` claims, then fold the folded groups: the reversed dot product of the
/// two polynomials that come out equals the matrix of the second layer,
/// collapsed with the scales of the second layer. That matrix holds, on its
/// diagonal, what the claimed values and error terms of each group collapse
/// to in the first layer, and off it the error terms of the second layer.
pub proof fn lemma_fold_consistency(
    a: Seq<Seq<nat>>,
    b: Seq<Seq<nat>>,
    n: nat,
    m: nat,
    row_scale_1: nat,
    column_scale_1: nat,
    row_scale_2: nat,
    column_scale_2: nat,
    len: nat,
)
    requires
        a.len() == n * m,
        b.len() == n * m,
        all_of_len(a, len),
        all_of_len(b, len),
    ensures
        revdot_spec(
            fold_polys_spec(folded_groups(a, n, m, row_scale_1, len), row_scale_2, len),
            fold_polys_spec(folded_groups(b, n, m, column_scale_1, len), column_scale_2, len),
        ) == collapse_spec(
            layer_two_matrix(a, b, n, m, row_scale_1, column_scale_1, len),
            row_scale_2,
            column_scale_2,
        ),
{
    let folded_a = folded_groups(a, n, m, row_scale_1, len);
    let folded_b = folded_groups(b, n, m, column_scale_1, len);
    let t = layer_two_matrix(a, b, n, m, row_scale_1, column_scale_1, len);
    let r = revdot_matrix(folded_a, folded_b);
    let collapsed = layer_one_values(a, b, n, m, row_scale_1, column_scale_1);
    assert forall|g: int| 0 <= g < n implies (#[trigger] folded_a[g]).len() == len by {
        lemma_group_bounds(n, m, g as nat);
        let ga = group(a, g as nat, m);
        assert(all_of_len(ga, len));
        lemma_fold_len(ga, row_scale_1, len);
    }
    assert forall|g: int| 0 <= g < n implies (#[trigger] folded_b[g]).len() == len by {
        lemma_group_bounds(n, m, g as nat);
        let gb = group(b, g as nat, m);
        assert(all_of_len(gb, len));
        lemma_fold_len(gb, column_scale_1, len);
    }
    assert forall|g: int| 0 <= g < n implies #[trigger] collapsed[g] == revdot_spec(
        folded_a[g],
        folded_b[g],
    ) by {
        lemma_group_bounds(n, m, g as nat);
        let ga = group(a, g as nat, m);
        let gb = group(b, g as nat, m);
        assert(all_of_len(ga, len));
        assert(all_of_len(gb, len));
        lemma_revdot_of_folds(ga, gb, row_scale_1, column_scale_1, len);
    }
    assert forall|i: int| 0 <= i < n implies t[i] == r[i] by {
        assert(t[i] =~= r[i]);
    }
    assert(t =~= r);
    assert(all_of_len(folded_a, len));
    assert(all_of_len(folded_b, len));
    lemma_revdot_of_folds(folded_a, folded_b, row_scale_2, column_scale_2, len);
}

/// The list filled up with zero polynomials to the `n * m` claims that the
/// parameters fix. A list that is longer than that is refused.
pub fn pad_claims(polys: Vec<Polynomial>, params: Parameters, rank: Rank) -> (r: Result<
    Vec<Polynomial>,
    Error,
>)
    requires
        all_of_rank(polys@, rank),
    ensures
        match r {
            Ok(padded) => {
                &&& polys@.len() <= params.spec_n() * params.spec_m()
                &&& padded@.len() == params.spec_n() * params.spec_m()
                &&& all_of_rank(padded@, rank)
                &&& forall|i: int| 0 <= i < polys@.len() ==> padded@[i] == polys@[i]
                &&& forall|i: int|
                    polys@.len() <= i < padded@.len() ==> (#[trigger] padded@[i])@ == zero_poly(
                        rank.spec_num_coeffs(),
                    )
            },
            Err(e) => polys@.len() > params.spec_n() * params.spec_m() && e
                == Error::LengthMismatch,
        },
{
    let total = params.num_claims();
    if polys.len() > total {
        return Err(Error::LengthMismatch);
    }
    let ghost given = polys@;
    let mut padded = polys;
    while padded.len() < total
        invariant
            given.len() <= padded@.len() <= total,
            all_of_rank(padded@, rank),
            forall|i: int| 0 <= i < given.len() ==> padded@[i] == given[i],
            forall|i: int|
                given.len() <= i < padded@.len() ==> (#[trigger] padded@[i])@ == zero_poly(
                    rank.spec_num_coeffs(),
                ),
        decreases total - padded@.len(),
    {
        let zero = Polynomial::new(rank);
        assert(zero@ =~= zero_poly(rank.spec_num_coeffs()));
        padded.push(zero);
    }
    Ok(padded)
}

/// The error terms of the first layer: for each of the `n` groups of `m`
/// claims, `revdot(a_i, b_j)` for every pair `i != j` of the group.
pub fn compute_errors_m(
    a: &Vec<Polynomial>,
    b: &Vec<Polynomial>,
    params: Parameters,
    rank: Rank,
) -> (r: Vec<Vec<Scalar>>)
    requires
        a@.len() == params.spec_n() * params.spec_m(),
        b@.len() == params.spec_n() * params.spec_m(),
        all_of_rank(a@, rank),
        all_of_rank(b@, rank),
    ensures
        r@.len() == params.spec_n(),
        forall|g: int|
            0 <= g < params.spec_n() ==> (#[trigger] r@[g])@.len() == error_terms_len(
                params.spec_m(),
            ),
        forall|g: nat, i: nat, j: nat|
            g < params.spec_n() && i < params.spec_m() && j < params.spec_m() && i != j ==> (
            #[trigger] r@[g as int]@[error_index(params.spec_m(), i, j)])@ == revdot_spec(
                a@[(g * params.spec_m() + i) as int]@,
                b@[(g * params.spec_m() + j) as int]@,
            ),
{
    let n = params.n();
    let m = params.m();
    let _ = params.num_claims();
    let mut r: Vec<Vec<Scalar>> = Vec::new();
    let mut start: usize = 0;
    let mut g: usize = 0;
    proof {
        assert(0 * m == 0) by (nonlinear_arith);
        lemma_representable(n as nat, m as nat);
    }
    while g < n
        invariant
            g <= n,
            n == params.spec_n(),
            m == params.spec_m(),
            1 <= m,
            countable(m as nat),
            a@.len() == n * m,
            b@.len() == n * m,
            n * m <= usize::MAX,
            all_of_rank(a@, rank),
            all_of_rank(b@, rank),
            start == g * m,
            r@.len() == g,
            forall|h: int| 0 <= h < g ==> (#[trigger] r@[h])@.len() == error_terms_len(m as nat),
            forall|h: nat, i: nat, j: nat|
                h < g && i < m && j < m && i != j ==> (#[trigger] r@[h as int]@[error_index(
                    m as nat,
                    i,
                    j,
                )])@ == revdot_spec(a@[h * m + i]@, b@[h * m + j]@),
        decreases n - g,
    {
        proof {
            lemma_group_bounds(n as nat, m as nat, g as nat);
        }
        let errors = compute_errors_range(a, b, start, m, rank);
        r.push(errors);
        start = start + m;
        g += 1;
    }
    r
}

/// The error terms of the second layer: `revdot(a_i, b_j)` for every pair
/// `i != j` of the `n` folded groups.
pub fn compute_errors_n(
    a: &Vec<Polynomial>,
    b: &Vec<Polynomial>,
    params: Parameters,
    rank: Rank,
) -> (r: Vec<Scalar>)
    requires
        a@.len() == params.spec_n(),
        b@.len() == params.spec_n(),
        all_of_rank(a@, rank),
        all_of_rank(b@, rank),
    ensures
        r@.len() == error_terms_len(params.spec_n()),
        forall|i: nat, j: nat|
            i < params.spec_n() && j < params.spec_n() && i != j ==> (#[trigger] r@[error_index(
                params.spec_n(),
                i,
                j,
            )])@ == revdot_spec(a@[i as int]@, b@[j as int]@),
{
    let n = params.n();
    compute_errors_range(a, b, 0, n, rank)
}

/// Each of the `n` groups of `m` polynomials folded with `scale`.
pub fn fold_polys_m(polys: &Vec<Polynomial>, scale: &Scalar, params: Parameters, rank: Rank) -> (r:
    Vec<Polynomial>)
    requires
        polys@.len() == params.spec_n() * params.spec_m(),
        all_of_rank(polys@, rank),
    ensures
        r@.len() == params.spec_n(),
        all_of_rank(r@, rank),
        views(r@) == folded_groups(
            views(polys@),
            params.spec_n(),
            params.spec_m(),
            scale@,
            rank.spec_num_coeffs(),
        ),
{
    let n = params.n();
    let m = params.m();
    let _ = params.num_claims();
    let mut r: Vec<Polynomial> = Vec::new();
    let mut start: usize = 0;
    let mut g: usize = 0;
    let ghost len = rank.spec_num_coeffs();
    proof {
        assert(0 * m == 0) by (nonlinear_arith);
    }
    while g < n
        invariant
            g <= n,
            n == params.spec_n(),
            m == params.spec_m(),
            polys@.len() == n * m,
            n * m <= usize::MAX,
            all_of_rank(polys@, rank),
            len == rank.spec_num_coeffs(),
            start == g * m,
            r@.len() == g,
            all_of_rank(r@, rank),
            forall|h: int|
                0 <= h < g ==> (#[trigger] r@[h])@ == fold_polys_spec(
                    group(views(polys@), h as nat, m as nat),
                    scale@,
                    len,
                ),
        decreases n - g,
    {
        proof {
            lemma_group_bounds(n as nat, m as nat, g as nat);
        }
        let folded = fold_polys_range(polys, start, m, scale, rank);
        r.push(folded);
        start = start + m;
        g += 1;
    }
    assert(views(r@) =~= folded_groups(views(polys@), n as nat, m as nat, scale@, len));
    r
}

/// The `n` folded groups folded with `scale`.
pub fn fold_polys_n(polys: &Vec<Polynomial>, scale: &Scalar, params: Parameters, rank: Rank) -> (r:
    Polynomial)
    requires
        polys@.len() == params.spec_n(),
        all_of_rank(polys@, rank),
    ensures
        r.spec_rank() == rank,
        r@ == fold_polys_spec(views(polys@), scale@, rank.spec_num_coeffs()),
{
    fold_polys(polys, scale, rank)
}

} // verus!
