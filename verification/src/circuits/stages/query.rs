//! The stage that holds the answers to the queries at `x`.

use crate::error::Error;
use crate::field::Scalar;
use crate::nested::NestedPoint;
use crate::polynomials::staging::rx_spec;
use crate::polynomials::staging::StagingCircuit;
use crate::polynomials::structured;
use crate::polynomials::values;
use crate::polynomials::Rank;
use vstd::prelude::*;

verus! {

/// The number of query elements in the query stage.
#[derive(Clone, Copy, Debug)]
pub struct Queries;

impl Queries {
    /// The number of query elements.
    pub fn len() -> (r: usize)
        ensures
            r == 5,
    {
        5
    }
}

/// What the query stage is made from.
#[derive(Clone, Debug)]
pub struct Witness {
    /// The challenge `x`.
    pub x: Scalar,
    /// The commitment, on the nested curve, to the registry polynomial at
    /// `x` and `y`.
    pub nested_s_commitment: NestedPoint,
    /// The query elements.
    pub queries: Vec<Scalar>,
}

/// What the query stage holds once its witness has been accepted.
#[derive(Clone, Debug)]
pub struct Output {
    /// The challenge `x`.
    pub x: Scalar,
    /// The commitment, on the nested curve, to the registry polynomial at
    /// `x` and `y`.
    pub nested_s_commitment: NestedPoint,
    /// The query elements, [`Queries::len`] of them.
    pub queries: Vec<Scalar>,
}

impl View for Output {
    type V = Seq<nat>;

    /// The values of the stage, in the order in which they are laid out.
    open spec fn view(&self) -> Seq<nat> {
        seq![self.x@, self.nested_s_commitment.x@, self.nested_s_commitment.y@] + values(
            self.queries@,
        )
    }
}

/// The query stage.
#[derive(Clone, Copy, Debug)]
pub struct Stage;

impl Stage {
    /// The number of values of the stage: the challenge, the two
    /// coordinates of the commitment, and the query elements.
    pub fn values() -> (r: usize)
        ensures
            r == 8,
    {
        1 + 2 + Queries::len()
    }

    /// The stage for the given witness, which must hold exactly as many
    /// query elements as the stage has.
    pub fn witness(witness: &Witness) -> (r: Result<Output, Error>)
        ensures
            match r {
                Ok(o) => {
                    &&& witness.queries@.len() == 5
                    &&& o.x == witness.x
                    &&& o.nested_s_commitment == witness.nested_s_commitment
                    &&& o.queries@ == witness.queries@
                },
                Err(e) => witness.queries@.len() != 5 && e == Error::LengthMismatch,
            },
    {
        if witness.queries.len() != Queries::len() {
            return Err(Error::LengthMismatch);
        }
        let mut queries: Vec<Scalar> = Vec::new();
        let mut i: usize = 0;
        while i < witness.queries.len()
            invariant
                i <= witness.queries@.len(),
                queries@ == witness.queries@.subrange(0, i as int),
            decreases witness.queries@.len() - i,
        {
            queries.push(witness.queries[i]);
            assert(queries@ =~= witness.queries@.subrange(0, i + 1));
            i += 1;
        }
        assert(queries@ =~= witness.queries@);
        Ok(Output { x: witness.x, nested_s_commitment: witness.nested_s_commitment, queries })
    }

    /// The values of the stage in the order in which they are laid out.
    pub fn stage_values(output: &Output) -> (r: Vec<Scalar>)
        ensures
            values(r@) == output@,
    {
        let mut r: Vec<Scalar> = Vec::new();
        r.push(output.x);
        r.push(output.nested_s_commitment.x);
        r.push(output.nested_s_commitment.y);
        assert(values(r@) =~= seq![
            output.x@,
            output.nested_s_commitment.x@,
            output.nested_s_commitment.y@,
        ]);
        crate::polynomials::extend_dense(&mut r, &output.queries);
        r
    }

    /// The trace polynomial of the stage, laid out after the gates of
    /// `parent`.
    pub fn rx(witness: &Witness, parent: &StagingCircuit, rank: Rank) -> (r: Result<
        structured::Polynomial,
        Error,
    >)
        ensures
            match r {
                Ok(p) => {
                    &&& witness.queries@.len() == 5
                    &&& parent.spec_skip() + parent.spec_size() + 4 + 1 <= rank.spec_n()
                    &&& p.spec_rank() == rank
                    &&& p@ == rx_spec(
                        seq![
                            witness.x@,
                            witness.nested_s_commitment.x@,
                            witness.nested_s_commitment.y@,
                        ] + values(witness.queries@),
                        parent.spec_skip() + parent.spec_size(),
                        4,
                        rank.spec_n(),
                    )
                },
                Err(e) => if witness.queries@.len() != 5 {
                    e == Error::LengthMismatch
                } else {
                    &&& parent.spec_skip() + parent.spec_size() + 4 + 1 > rank.spec_n()
                    &&& e == Error::MultiplicationBoundExceeded(rank.spec_n() as usize)
                },
            },
    {
        let output = match Stage::witness(witness) {
            Ok(o) => o,
            Err(e) => {
                return Err(e);
            },
        };
        let n = rank.n();
        let circuit = match StagingCircuit::after(parent, Stage::values()) {
            Some(c) => c,
            None => {
                return Err(Error::MultiplicationBoundExceeded(n));
            },
        };
        let stage_values = Stage::stage_values(&output);
        assert(stage_values@.len() == values(stage_values@).len());
        circuit.rx(&stage_values, rank)
    }
}

} // verus!
