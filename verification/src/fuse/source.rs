//! Where the claims of a fusion take their polynomials from: the two proofs
//! consumed.

use crate::pcd::CircuitIndex;
use crate::pcd::Proof;
use crate::polynomials::structured;
use vstd::prelude::*;

verus! {

/// A polynomial of a proof that enters the claims of a fusion.
#[derive(Clone, Copy, Debug, PartialEq, Eq, Structural)]
pub enum RxComponent {
    /// The folded polynomial `A`.
    AbA,
    /// The folded polynomial `B`.
    AbB,
    /// The trace of the step.
    Application,
    /// The trace of the first transcript circuit.
    Hashes1,
    /// The trace of the second transcript circuit.
    Hashes2,
    /// The trace of the circuit of the first layer.
    PartialCollapse,
    /// The trace of the circuit of the second layer.
    FullCollapse,
    /// The trace of the circuit of the claimed value.
    ComputeV,
    /// The trace of the preamble stage.
    Preamble,
    /// The trace of the stage of the first layer's error terms.
    ErrorM,
    /// The trace of the stage of the second layer's error terms.
    ErrorN,
    /// The trace of the query stage.
    Query,
    /// The trace of the eval stage.
    Eval,
}

/// The polynomial of `proof` that the component names.
pub open spec fn component_of(proof: &Proof, component: RxComponent) -> structured::Polynomial {
    match component {
        RxComponent::AbA => proof.ab.a.spec_poly(),
        RxComponent::AbB => proof.ab.b.spec_poly(),
        RxComponent::Application => proof.application.rx.spec_poly(),
        RxComponent::Hashes1 => proof.circuits.hashes_1.spec_poly(),
        RxComponent::Hashes2 => proof.circuits.hashes_2.spec_poly(),
        RxComponent::PartialCollapse => proof.circuits.partial_collapse.spec_poly(),
        RxComponent::FullCollapse => proof.circuits.full_collapse.spec_poly(),
        RxComponent::ComputeV => proof.circuits.compute_v.spec_poly(),
        RxComponent::Preamble => proof.preamble.native_rx.spec_poly(),
        RxComponent::ErrorM => proof.error_m.native_rx.spec_poly(),
        RxComponent::ErrorN => proof.error_n.native_rx.spec_poly(),
        RxComponent::Query => proof.query.native_rx.spec_poly(),
        RxComponent::Eval => proof.eval.native_rx.spec_poly(),
    }
}

/// The two proofs that a fusion consumes, as the source of its claims.
#[derive(Clone, Copy)]
pub struct FuseProofSource<'rx> {
    /// The left proof.
    pub left: &'rx Proof,
    /// The right proof.
    pub right: &'rx Proof,
}

/// The polynomial of `proof` that the component names.
fn component<'rx>(proof: &'rx Proof, which: RxComponent) -> (r: &'rx structured::Polynomial)
    ensures
        *r == component_of(proof, which),
{
    match which {
        RxComponent::AbA => proof.ab.a.poly(),
        RxComponent::AbB => proof.ab.b.poly(),
        RxComponent::Application => proof.application.rx.poly(),
        RxComponent::Hashes1 => proof.circuits.hashes_1.poly(),
        RxComponent::Hashes2 => proof.circuits.hashes_2.poly(),
        RxComponent::PartialCollapse => proof.circuits.partial_collapse.poly(),
        RxComponent::FullCollapse => proof.circuits.full_collapse.poly(),
        RxComponent::ComputeV => proof.circuits.compute_v.poly(),
        RxComponent::Preamble => proof.preamble.native_rx.poly(),
        RxComponent::ErrorM => proof.error_m.native_rx.poly(),
        RxComponent::ErrorN => proof.error_n.native_rx.poly(),
        RxComponent::Query => proof.query.native_rx.poly(),
        RxComponent::Eval => proof.eval.native_rx.poly(),
    }
}

impl<'rx> FuseProofSource<'rx> {
    /// The named polynomial of the left proof and of the right proof.
    pub fn rx(&self, which: RxComponent) -> (r: (
        &'rx structured::Polynomial,
        &'rx structured::Polynomial,
    ))
        ensures
            *r.0 == component_of(self.left, which),
            *r.1 == component_of(self.right, which),
    {
        (component(self.left, which), component(self.right, which))
    }

    /// The circuits of the steps of the left proof and of the right proof.
    pub fn app_circuits(&self) -> (r: (CircuitIndex, CircuitIndex))
        ensures
            r.0 == self.left.application.circuit_id,
            r.1 == self.right.application.circuit_id,
    {
        (self.left.application.circuit_id, self.right.application.circuit_id)
    }
}

} // verus!
