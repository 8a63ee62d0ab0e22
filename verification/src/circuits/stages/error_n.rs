//! The stage that holds the error terms of the second layer of the folding
//! reduction, the values that the groups collapsed to in the first layer,
//! and the state of the transcript from which the second layer's
//! challenges are squeezed.

use crate::error::Error;
use crate::field::Scalar;
use crate::fold_revdot::error_terms_len;
use crate::fold_revdot::Parameters;
use crate::polynomials::extend_dense;
use crate::polynomials::staging::rx_spec;
use crate::polynomials::staging::StagingCircuit;
use crate::polynomials::structured;
use crate::polynomials::values;
use crate::polynomials::Rank;
use vstd::prelude::*;

verus! {

/// What the stage is made from, and what it holds.
#[derive(Clone, Debug)]
pub struct Witness {
    /// The error terms between the `n` folded groups, `n * n - n` of them.
    pub error_terms: Vec<Scalar>,
    /// The value that each of the `n` groups collapsed to.
    pub collapsed: Vec<Scalar>,
    /// The state of the transcript after the commitment of the first
    /// layer's error terms was absorbed.
    pub sponge_state: Vec<Scalar>,
}

impl View for Witness {
    type V = Seq<nat>;

    /// The values of the stage, in the order in which they are laid out.
    open spec fn view(&self) -> Seq<nat> {
        values(self.error_terms@) + values(self.collapsed@) + values(self.sponge_state@)
    }
}

impl Witness {
    /// Whether the witness has the shape that `n` groups give it.
    pub open spec fn well_shaped(&self, params: Parameters) -> bool {
        &&& self.error_terms@.len() == error_terms_len(params.spec_n())
        &&& self.collapsed@.len() == params.spec_n()
    }
}

/// The stage of the second layer's error terms.
#[derive(Clone, Copy, Debug)]
pub struct Stage;

impl Stage {
    /// The values of the stage in the order in which they are laid out.
    pub fn stage_values(witness: &Witness) -> (r: Vec<Scalar>)
        ensures
            values(r@) == witness@,
    {
        let mut r: Vec<Scalar> = Vec::new();
        extend_dense(&mut r, &witness.error_terms);
        extend_dense(&mut r, &witness.collapsed);
        extend_dense(&mut r, &witness.sponge_state);
        assert(values(r@) =~= witness@);
        r
    }

    /// The trace polynomial of the stage, laid out after the gates of
    /// `parent`.
    pub fn rx(witness: &Witness, params: Parameters, parent: &StagingCircuit, rank: Rank) -> (r:
        Result<structured::Polynomial, Error>)
        ensures
            match r {
                Ok(p) => {
                    &&& witness.well_shaped(params)
                    &&& parent.spec_skip() + parent.spec_size() + (witness@.len() + 1) / 2 + 1
                        <= rank.spec_n()
                    &&& p.spec_rank() == rank
                    &&& p@ == rx_spec(
                        witness@,
                        parent.spec_skip() + parent.spec_size(),
                        (witness@.len() + 1) / 2,
                        rank.spec_n(),
                    )
                },
                Err(e) => if !witness.well_shaped(params) {
                    e == Error::LengthMismatch
                } else {
                    &&& parent.spec_skip() + parent.spec_size() + (witness@.len() + 1) / 2 + 1
                        > rank.spec_n()
                    &&& e == Error::MultiplicationBoundExceeded(rank.spec_n() as usize)
                },
            },
    {
        let n = params.n();
        proof {
            crate::fold_revdot::lemma_representable(n as nat, params.spec_m());
        }
        if witness.error_terms.len() != n * n - n || witness.collapsed.len() != n {
            return Err(Error::LengthMismatch);
        }
        let stage_values = Stage::stage_values(witness);
        assert(stage_values@.len() == values(stage_values@).len());
        let gates = rank.n();
        let circuit = match StagingCircuit::after(parent, stage_values.len()) {
            Some(c) => c,
            None => {
                return Err(Error::MultiplicationBoundExceeded(gates));
            },
        };
        circuit.rx(&stage_values, rank)
    }
}

} // verus!
