//! The fusion of two proofs into one.
//!
//! A fusion runs ten rounds in a fixed order. What a round commits to on
//! the host curve is made here, by the functions of [`rounds`], which also
//! name the commitments that the round's stage on the nested curve binds;
//! the commitments on the nested curve are made here too. The polynomials
//! of the registry, the claims, the traces of the nested stages and of the
//! circuits, and the transcript come from outside.
//! [`Application::fuse`] sequences the two: it takes what has just
//! happened and answers with what is to happen next, and
//! [`Fusion::feed`](schedule::Fusion::feed) names the challenges that feed
//! the round under way. Where a round fails, the schedule is told so and
//! ends the fusion with that error. After the last round
//! [`Application::assemble`] puts the proof together, and hands it out only
//! if its commitments open and its claimed values hold.

pub mod ab;
pub mod circuits;
pub mod errors;
pub mod eval;
pub mod finish;
pub mod p;
pub mod preamble;
pub mod rounds;
pub mod schedule;
pub mod source;

use crate::curve::Generators;
use crate::error::Error;
use crate::fold_revdot::Parameters;
use crate::nested::NestedGenerators;
use crate::polynomials::Rank;
use vstd::prelude::*;

verus! {

/// What an application fixes for all of its proofs: the rank, the size of
/// an encoded header, the generators of the host curve and of the nested
/// curve, the shape of the folding reduction, and the number of its steps.
#[derive(Debug)]
pub struct Application {
    rank: Rank,
    header_size: usize,
    generators: Generators,
    nested_generators: NestedGenerators,
    params: Parameters,
    num_application_steps: usize,
}

impl Application {
    #[verifier::type_invariant]
    spec fn well_formed(self) -> bool {
        self.rank.spec_num_coeffs() <= self.generators.g().len()
    }

    /// The rank.
    pub closed spec fn spec_rank(&self) -> Rank {
        self.rank
    }

    /// The size of an encoded header.
    pub closed spec fn spec_header_size(&self) -> nat {
        self.header_size as nat
    }

    /// The generators of the host curve.
    pub closed spec fn spec_generators(&self) -> &Generators {
        &self.generators
    }

    /// The generators of the nested curve.
    pub closed spec fn spec_nested_generators(&self) -> &NestedGenerators {
        &self.nested_generators
    }

    /// The shape of the folding reduction.
    pub closed spec fn spec_params(&self) -> Parameters {
        self.params
    }

    /// The number of steps of the application.
    pub closed spec fn spec_num_application_steps(&self) -> nat {
        self.num_application_steps as nat
    }

    /// An application with the given parameters. The generators must
    /// suffice for the `4n` coefficients of the rank; where they do not,
    /// the application is refused with the number of coefficients.
    pub fn new(
        rank: Rank,
        header_size: usize,
        generators: Generators,
        nested_generators: NestedGenerators,
        params: Parameters,
        num_application_steps: usize,
    ) -> (r: Result<Application, Error>)
        ensures
            match r {
                Ok(app) => {
                    &&& rank.spec_num_coeffs() <= generators.g().len()
                    &&& app.spec_rank() == rank
                    &&& app.spec_header_size() == header_size
                    &&& app.spec_generators().g() == generators.g()
                    &&& app.spec_generators().h() == generators.h()
                    &&& app.spec_nested_generators().g() == nested_generators.g()
                    &&& app.spec_nested_generators().h() == nested_generators.h()
                    &&& app.spec_params() == params
                    &&& app.spec_num_application_steps() == num_application_steps
                },
                Err(e) => {
                    &&& rank.spec_num_coeffs() > generators.g().len()
                    &&& e == Error::CoefficientBoundExceeded(rank.spec_num_coeffs() as usize)
                },
            },
    {
        let size = rank.num_coeffs();
        if generators.len() < size {
            return Err(Error::CoefficientBoundExceeded(size));
        }
        Ok(
            Application {
                rank,
                header_size,
                generators,
                nested_generators,
                params,
                num_application_steps,
            },
        )
    }

    /// The rank.
    #[verifier::when_used_as_spec(spec_rank)]
    pub fn rank(&self) -> (r: Rank)
        ensures
            r == self.spec_rank(),
    {
        self.rank
    }

    /// The size of an encoded header.
    pub fn header_size(&self) -> (r: usize)
        ensures
            r == self.spec_header_size(),
    {
        self.header_size
    }

    /// The generators of the host curve, enough for the rank.
    #[verifier::when_used_as_spec(spec_generators)]
    pub fn generators(&self) -> (r: &Generators)
        ensures
            r == self.spec_generators(),
            self.spec_rank().spec_num_coeffs() <= r.g().len(),
    {
        proof {
            use_type_invariant(self);
        }
        &self.generators
    }

    /// The generators of the nested curve.
    #[verifier::when_used_as_spec(spec_nested_generators)]
    pub fn nested_generators(&self) -> (r: &NestedGenerators)
        ensures
            r == self.spec_nested_generators(),
    {
        &self.nested_generators
    }

    /// The shape of the folding reduction.
    #[verifier::when_used_as_spec(spec_params)]
    pub fn params(&self) -> (r: Parameters)
        ensures
            r == self.spec_params(),
    {
        self.params
    }

    /// The number of steps of the application.
    pub fn num_application_steps(&self) -> (r: usize)
        ensures
            r == self.spec_num_application_steps(),
    {
        self.num_application_steps
    }
}

} // verus!
