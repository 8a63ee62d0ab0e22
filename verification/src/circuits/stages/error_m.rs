//! The stage that holds the error terms of the first layer of the folding
//! reduction: one list of error terms for each group of claims.

use crate::error::Error;
use crate::field::Scalar;
use crate::fold_revdot::error_terms_len;
use crate::fold_revdot::lemma_representable;
use crate::fold_revdot::Parameters;
use crate::nested::NestedPoint;
use crate::polynomials::extend_dense;
use crate::polynomials::staging::rx_spec;
use crate::polynomials::staging::StagingCircuit;
use crate::polynomials::structured;
use crate::polynomials::values;
use crate::polynomials::Rank;
use vstd::prelude::*;

verus! {

/// The values of the first `upto` rows, one row after the other.
pub open spec fn rows_upto(rows: Seq<Vec<Scalar>>, upto: nat) -> Seq<nat>
    decreases upto,
{
    if upto == 0 {
        Seq::empty()
    } else {
        rows_upto(rows, (upto - 1) as nat) + values(rows[upto - 1]@)
    }
}

/// Whether the rows are the error terms of `n` groups of `m` claims.
pub open spec fn well_shaped(rows: Seq<Vec<Scalar>>, n: nat, m: nat) -> bool {
    &&& rows.len() == n
    &&& forall|g: int| 0 <= g < n ==> (#[trigger] rows[g])@.len() == error_terms_len(m)
}

/// What the stage is made from.
#[derive(Clone, Debug)]
pub struct Witness {
    /// The challenge `z`.
    pub z: Scalar,
    /// The commitment, on the nested curve, of the round before.
    pub nested_s_doubleprime_commitment: NestedPoint,
    /// The error terms: for each of the `n` groups, `m * m - m` of them.
    pub error_terms: Vec<Vec<Scalar>>,
}

/// What the stage holds once its witness has been accepted.
#[derive(Clone, Debug)]
pub struct Output {
    /// The challenge `z`.
    pub z: Scalar,
    /// The commitment, on the nested curve, of the round before.
    pub nested_s_doubleprime_commitment: NestedPoint,
    /// The error terms: for each of the `n` groups, `m * m - m` of them.
    pub error_terms: Vec<Vec<Scalar>>,
}

impl View for Output {
    type V = Seq<nat>;

    /// The values of the stage, in the order in which they are laid out.
    open spec fn view(&self) -> Seq<nat> {
        seq![
            self.z@,
            self.nested_s_doubleprime_commitment.x@,
            self.nested_s_doubleprime_commitment.y@,
        ] + rows_upto(self.error_terms@, self.error_terms@.len())
    }
}

/// The stage of the first layer's error terms.
#[derive(Clone, Copy, Debug)]
pub struct Stage;

impl Stage {
    /// The number of values of the stage: the challenge, the two
    /// coordinates of the commitment, and `n * (m * m - m)` error terms.
    pub fn values(params: Parameters) -> (r: usize)
        ensures
            r == 3 + params.spec_n() * error_terms_len(params.spec_m()),
    {
        let n = params.n();
        let m = params.m();
        proof {
            lemma_representable(n as nat, m as nat);
            if m == 1 {
                assert(n * (m * m - m) == 0) by (nonlinear_arith)
                    requires
                        m == 1,
                ;
            } else if n == 1 && m == 2 {
                assert(n * (m * m - m) == 2) by (nonlinear_arith)
                    requires
                        n == 1,
                        m == 2,
                ;
            } else {
                assert(n * (m * m - m) + 3 <= n * (m * m)) by (nonlinear_arith)
                    requires
                        1 <= n,
                        2 <= m,
                        !(n == 1 && m == 2),
                ;
            }
        }
        1 + 2 + params.num_error_terms()
    }

    /// The stage for the given witness, which must hold the error terms of
    /// `n` groups of `m` claims.
    pub fn witness(witness: &Witness, params: Parameters) -> (r: Result<Output, Error>)
        ensures
            match r {
                Ok(o) => {
                    &&& well_shaped(witness.error_terms@, params.spec_n(), params.spec_m())
                    &&& o.z == witness.z
                    &&& o.nested_s_doubleprime_commitment
                        == witness.nested_s_doubleprime_commitment
                    &&& o@ == seq![
                        witness.z@,
                        witness.nested_s_doubleprime_commitment.x@,
                        witness.nested_s_doubleprime_commitment.y@,
                    ] + rows_upto(witness.error_terms@, witness.error_terms@.len())
                    &&& o@.len() == 3 + params.spec_n() * error_terms_len(params.spec_m())
                },
                Err(e) => {
                    &&& !well_shaped(witness.error_terms@, params.spec_n(), params.spec_m())
                    &&& e == Error::LengthMismatch
                },
            },
    {
        let n = params.n();
        let m = params.m();
        let per_group = params.error_terms_per_group();
        if witness.error_terms.len() != n {
            return Err(Error::LengthMismatch);
        }
        let mut rows: Vec<Vec<Scalar>> = Vec::new();
        let mut g: usize = 0;
        proof {
            assert(0 * per_group == 0) by (nonlinear_arith);
        }
        while g < n
            invariant
                g <= n,
                n == witness.error_terms@.len(),
                n == params.spec_n(),
                m == params.spec_m(),
                per_group == error_terms_len(m as nat),
                rows@.len() == g,
                forall|h: int| 0 <= h < g ==> (
                    #[trigger] witness.error_terms@[h]
                )@.len() == per_group,
                forall|h: int| 0 <= h < g ==> (#[trigger] rows@[h])@ == witness.error_terms@[h]@,
                rows_upto(rows@, g as nat) == rows_upto(witness.error_terms@, g as nat),
                rows_upto(rows@, g as nat).len() == g * per_group,
            decreases n - g,
        {
            if witness.error_terms[g].len() != per_group {
                assert(witness.error_terms@[g as int]@.len() != error_terms_len(m as nat));
                return Err(Error::LengthMismatch);
            }
            let mut row: Vec<Scalar> = Vec::new();
            extend_dense(&mut row, &witness.error_terms[g]);
            assert(row@ =~= witness.error_terms@[g as int]@);
            let ghost before = rows@;
            rows.push(row);
            proof {
                lemma_rows_upto_prefix(before, rows@, g as nat);
                assert((g + 1) * per_group == g * per_group + per_group) by (nonlinear_arith);
            }
            g += 1;
        }
        Ok(
            Output {
                z: witness.z,
                nested_s_doubleprime_commitment: witness.nested_s_doubleprime_commitment,
                error_terms: rows,
            },
        )
    }

    /// The values of the stage in the order in which they are laid out.
    pub fn stage_values(output: &Output) -> (r: Vec<Scalar>)
        ensures
            values(r@) == output@,
    {
        let mut r: Vec<Scalar> = Vec::new();
        r.push(output.z);
        r.push(output.nested_s_doubleprime_commitment.x);
        r.push(output.nested_s_doubleprime_commitment.y);
        let ghost head = values(r@);
        assert(head =~= seq![
            output.z@,
            output.nested_s_doubleprime_commitment.x@,
            output.nested_s_doubleprime_commitment.y@,
        ]);
        let mut g: usize = 0;
        assert(values(r@) =~= head + rows_upto(output.error_terms@, 0));
        while g < output.error_terms.len()
            invariant
                g <= output.error_terms@.len(),
                values(r@) == head + rows_upto(output.error_terms@, g as nat),
            decreases output.error_terms@.len() - g,
        {
            let ghost before = values(r@);
            extend_dense(&mut r, &output.error_terms[g]);
            assert(values(r@) =~= head + rows_upto(output.error_terms@, (g + 1) as nat));
            g += 1;
        }
        r
    }

    /// The trace polynomial of the stage, laid out after the gates of
    /// `parent`.
    pub fn rx(witness: &Witness, params: Parameters, parent: &StagingCircuit, rank: Rank) -> (r:
        Result<structured::Polynomial, Error>)
        ensures
            match r {
                Ok(p) => {
                    &&& well_shaped(witness.error_terms@, params.spec_n(), params.spec_m())
                    &&& parent.spec_skip() + parent.spec_size() + (3 + params.spec_n()
                        * error_terms_len(params.spec_m()) + 1) / 2 + 1 <= rank.spec_n()
                    &&& p.spec_rank() == rank
                    &&& p@ == rx_spec(
                        seq![
                            witness.z@,
                            witness.nested_s_doubleprime_commitment.x@,
                            witness.nested_s_doubleprime_commitment.y@,
                        ] + rows_upto(witness.error_terms@, witness.error_terms@.len()),
                        parent.spec_skip() + parent.spec_size(),
                        ((3 + params.spec_n() * error_terms_len(params.spec_m()) + 1) / 2) as nat,
                        rank.spec_n(),
                    )
                },
                Err(e) => if !well_shaped(
                    witness.error_terms@,
                    params.spec_n(),
                    params.spec_m(),
                ) {
                    e == Error::LengthMismatch
                } else {
                    &&& parent.spec_skip() + parent.spec_size() + (3 + params.spec_n()
                        * error_terms_len(params.spec_m()) + 1) / 2 + 1 > rank.spec_n()
                    &&& e == Error::MultiplicationBoundExceeded(rank.spec_n() as usize)
                },
            },
    {
        let output = match Stage::witness(witness, params) {
            Ok(o) => o,
            Err(e) => {
                return Err(e);
            },
        };
        let n = rank.n();
        let circuit = match StagingCircuit::after(parent, Stage::values(params)) {
            Some(c) => c,
            None => {
                return Err(Error::MultiplicationBoundExceeded(n));
            },
        };
        let stage_values = Stage::stage_values(&output);
        assert(stage_values@.len() == values(stage_values@).len());
        circuit.rx(&stage_values, rank)
    }
}

/// Rows that agree up to `upto` have the same values up to `upto`.
proof fn lemma_rows_upto_prefix(a: Seq<Vec<Scalar>>, b: Seq<Vec<Scalar>>, upto: nat)
    requires
        upto <= a.len(),
        upto <= b.len(),
        forall|h: int| 0 <= h < upto ==> a[h] == b[h],
    ensures
        rows_upto(a, upto) == rows_upto(b, upto),
    decreases upto,
{
    if upto > 0 {
        lemma_rows_upto_prefix(a, b, (upto - 1) as nat);
    }
}

} // verus!
