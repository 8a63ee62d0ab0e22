//! Assembly of the trace polynomial `r(X)`.
//!
//! An [`Evaluator`] records, gate by gate, the values that a circuit
//! assigns to its wires. The [`Trace`] that comes out is turned into a
//! polynomial by [`Trace::assemble_with_key`], which puts the key of the
//! registry into gate 0.

use crate::error::Error;
use crate::field::finv;
use crate::field::fmul;
use crate::field::Scalar;
use crate::polynomials::structured;
use crate::polynomials::values;
use crate::polynomials::Rank;
use vstd::prelude::*;

verus! {

/// The key that ties a trace to a registry: an element of the field and its
/// inverse.
#[derive(Clone, Copy, Debug)]
pub struct Key {
    value: Scalar,
    inverse: Scalar,
}

impl Default for Key {
    /// The key of a trace that belongs to no registry: one.
    fn default() -> (r: Key)
        ensures
            r.spec_value() == 1,
            r.spec_inverse() == 1,
    {
        Key::trivial()
    }
}

impl Key {
    #[verifier::type_invariant]
    spec fn well_formed(self) -> bool {
        fmul(self.inverse@, self.value@) == 1
    }

    /// The key.
    pub closed spec fn spec_value(&self) -> nat {
        self.value@
    }

    /// The inverse of the key.
    pub closed spec fn spec_inverse(&self) -> nat {
        self.inverse@
    }

    /// The key with the given value, which must not be zero.
    pub fn new(value: Scalar) -> (r: Option<Key>)
        ensures
            r is None <==> value@ == 0,
            r matches Some(k) ==> k.spec_value() == value@ && k.spec_inverse() == finv(value@),
    {
        match value.invert() {
            Some(inverse) => Some(Key { value, inverse }),
            None => None,
        }
    }

    /// The key of a trace that belongs to no registry: one.
    pub fn trivial() -> (r: Key)
        ensures
            r.spec_value() == 1,
            r.spec_inverse() == 1,
    {
        let one = Scalar::one();
        proof {
            crate::algebra::lemma_fmul_one(1);
            crate::algebra::lemma_reduced(1);
        }
        Key { value: one, inverse: one }
    }

    /// The key.
    pub fn value(&self) -> (r: Scalar)
        ensures
            r@ == self.spec_value(),
    {
        self.value
    }

    /// The inverse of the key.
    pub fn inverse(&self) -> (r: Scalar)
        ensures
            r@ == self.spec_inverse(),
            fmul(r@, self.spec_value()) == 1,
    {
        proof {
            use_type_invariant(self);
        }
        self.inverse
    }
}

/// The value of the wire at `gate`, zero beyond the end of the trace.
pub open spec fn wire_or_zero(wires: Seq<nat>, gate: int) -> nat {
    if 0 <= gate < wires.len() {
        wires[gate]
    } else {
        0
    }
}

/// Coefficient `k` of the polynomial assembled from a trace: the wires of
/// gate `i` in their lanes, and in gate 0 the key, its inverse and one.
pub open spec fn assembled_coeff(
    a: Seq<nat>,
    b: Seq<nat>,
    c: Seq<nat>,
    key: nat,
    key_inverse: nat,
    n: nat,
    k: int,
) -> nat {
    if k < n {
        if k == 0 {
            1
        } else {
            wire_or_zero(c, k)
        }
    } else if k < 2 * n {
        if k == 2 * n - 1 {
            key_inverse
        } else {
            wire_or_zero(b, 2 * n - 1 - k)
        }
    } else if k < 3 * n {
        if k == 2 * n {
            key
        } else {
            wire_or_zero(a, k - 2 * n)
        }
    } else {
        0
    }
}

/// The polynomial assembled from a trace.
pub open spec fn assembled_spec(
    a: Seq<nat>,
    b: Seq<nat>,
    c: Seq<nat>,
    key: nat,
    key_inverse: nat,
    n: nat,
) -> Seq<nat> {
    Seq::new(4 * n, |k: int| assembled_coeff(a, b, c, key, key_inverse, n, k))
}

/// The values that a circuit assigned to the wires of its gates. Gate 0 is
/// always there; the key is put into it.
#[derive(Debug)]
pub struct Trace {
    a: Vec<Scalar>,
    b: Vec<Scalar>,
    c: Vec<Scalar>,
}

impl Clone for Trace {
    fn clone(&self) -> (r: Self)
        ensures
            r.a() == self.a(),
            r.b() == self.b(),
            r.c() == self.c(),
            r.well_formed() == self.well_formed(),
    {
        Trace {
            a: crate::polynomials::copy_dense(&self.a),
            b: crate::polynomials::copy_dense(&self.b),
            c: crate::polynomials::copy_dense(&self.c),
        }
    }
}

impl Trace {
    /// Whether the trace holds gate 0 and a value for each wire of each of
    /// its gates, no more gates than can be counted. Every trace that this
    /// library hands out does.
    pub open spec fn well_formed(&self) -> bool {
        &&& 1 <= self.a().len() <= usize::MAX
        &&& self.a().len() == self.b().len()
        &&& self.a().len() == self.c().len()
    }

    /// The values of the wires `A`, gate by gate.
    pub closed spec fn a(&self) -> Seq<nat> {
        values(self.a@)
    }

    /// The values of the wires `B`, gate by gate.
    pub closed spec fn b(&self) -> Seq<nat> {
        values(self.b@)
    }

    /// The values of the wires `C`, gate by gate.
    pub closed spec fn c(&self) -> Seq<nat> {
        values(self.c@)
    }

    /// The trace that holds gate 0 and nothing else.
    pub fn new() -> (r: Trace)
        ensures
            r.well_formed(),
            r.a() == seq![0nat],
            r.b() == seq![0nat],
            r.c() == seq![0nat],
    {
        let zero = Scalar::zero();
        let r = Trace { a: vec![zero], b: vec![zero], c: vec![zero] };
        assert(r.a() =~= seq![0nat]);
        assert(r.b() =~= seq![0nat]);
        assert(r.c() =~= seq![0nat]);
        r
    }

    /// The number of gates.
    pub fn len(&self) -> (r: usize)
        requires
            self.well_formed(),
        ensures
            r == self.a().len(),
            r == self.b().len(),
            r == self.c().len(),
            r >= 1,
    {
        self.a.len()
    }

    /// A gate with the given values, after the gates that are there.
    pub(crate) fn push(&mut self, a: Scalar, b: Scalar, c: Scalar)
        requires
            old(self).well_formed(),
        ensures
            final(self).well_formed(),
            final(self).a() == old(self).a().push(a@),
            final(self).b() == old(self).b().push(b@),
            final(self).c() == old(self).c().push(c@),
    {
        self.a.push(a);
        self.b.push(b);
        self.c.push(c);
        let _ = self.a.len();
        assert(values(self.a@) =~= values(old(self).a@).push(a@));
        assert(values(self.b@) =~= values(old(self).b@).push(b@));
        assert(values(self.c@) =~= values(old(self).c@).push(c@));
    }

    /// Sets wire `B` of gate `index` to `b` and wire `C` to the product of
    /// wire `A` and `b`.
    pub(crate) fn fill(&mut self, index: usize, b: Scalar)
        requires
            old(self).well_formed(),
            index < old(self).a().len(),
        ensures
            final(self).well_formed(),
            final(self).a() == old(self).a(),
            final(self).b() == old(self).b().update(index as int, b@),
            final(self).c() == old(self).c().update(
                index as int,
                fmul(old(self).a()[index as int], b@),
            ),
    {
        let c = self.a[index].mul(&b);
        self.b.set(index, b);
        self.c.set(index, c);
        assert(values(self.b@) =~= values(old(self).b@).update(index as int, b@));
        assert(values(self.c@) =~= values(old(self).c@).update(index as int, c@));
    }

    /// The polynomial of the trace, with `key` put into gate 0. A trace
    /// with more gates than the rank offers is refused.
    pub fn assemble_with_key(&self, key: &Key, rank: Rank) -> (r: Result<
        structured::Polynomial,
        Error,
    >)
        requires
            self.well_formed(),
        ensures
            match r {
                Ok(p) => {
                    &&& self.a().len() <= rank.spec_n()
                    &&& p.spec_rank() == rank
                    &&& p@ == assembled_spec(
                        self.a(),
                        self.b(),
                        self.c(),
                        key.spec_value(),
                        key.spec_inverse(),
                        rank.spec_n(),
                    )
                },
                Err(e) => {
                    &&& self.a().len() > rank.spec_n()
                    &&& e == Error::MultiplicationBoundExceeded(rank.spec_n() as usize)
                },
            },
    {
        let n = rank.n();
        if self.a.len() > n {
            return Err(Error::MultiplicationBoundExceeded(n));
        }
        let total = rank.num_coeffs();
        let mut coeffs: Vec<Scalar> = Vec::new();
        let mut k: usize = 0;
        while k < total
            invariant
                k <= total,
                total == 4 * n,
                1 <= n <= 0x1000_0000,
                self.a@.len() == self.b@.len(),
                self.a@.len() == self.c@.len(),
                coeffs@.len() == k,
                forall|i: int|
                    0 <= i < k ==> (#[trigger] coeffs@[i])@ == assembled_coeff(
                        self.a(),
                        self.b(),
                        self.c(),
                        key.spec_value(),
                        key.spec_inverse(),
                        n as nat,
                        i,
                    ),
            decreases total - k,
        {
            let v = if k < n {
                if k == 0 {
                    Scalar::one()
                } else if k < self.c.len() {
                    self.c[k]
                } else {
                    Scalar::zero()
                }
            } else if k < 2 * n {
                let g = 2 * n - 1 - k;
                if g == 0 {
                    key.inverse()
                } else if g < self.b.len() {
                    self.b[g]
                } else {
                    Scalar::zero()
                }
            } else if k < 3 * n {
                let g = k - 2 * n;
                if g == 0 {
                    key.value()
                } else if g < self.a.len() {
                    self.a[g]
                } else {
                    Scalar::zero()
                }
            } else {
                Scalar::zero()
            };
            coeffs.push(v);
            k += 1;
        }
        assert(values(coeffs@) =~= assembled_spec(
            self.a(),
            self.b(),
            self.c(),
            key.spec_value(),
            key.spec_inverse(),
            n as nat,
        ));
        Ok(structured::Polynomial::from_dense(rank, coeffs))
    }

    /// The polynomial of the trace with the key of no registry.
    pub fn assemble_trivial(self, rank: Rank) -> (r: Result<structured::Polynomial, Error>)
        requires
            self.well_formed(),
        ensures
            match r {
                Ok(p) => {
                    &&& self.a().len() <= rank.spec_n()
                    &&& p.spec_rank() == rank
                    &&& p@ == assembled_spec(self.a(), self.b(), self.c(), 1, 1, rank.spec_n())
                },
                Err(e) => {
                    &&& self.a().len() > rank.spec_n()
                    &&& e == Error::MultiplicationBoundExceeded(rank.spec_n() as usize)
                },
            },
    {
        let key = Key::trivial();
        self.assemble_with_key(&key, rank)
    }
}

/// Records the values that a circuit assigns. Two allocations in a row
/// share one gate: the first takes wire `A` of a new gate, the second wire
/// `B` of the same gate, and wire `C` holds their product.
pub struct Evaluator {
    trace: Trace,
    available_b: Option<usize>,
}

impl Evaluator {
    /// Whether the trace recorded is well formed and a gate that waits
    /// for a partner, if any, is one of its gates. Every evaluator that
    /// this library hands out is, and its operations keep it so.
    pub open spec fn well_formed(&self) -> bool {
        &&& self.trace().well_formed()
        &&& self.available_b() matches Some(index) ==> index < self.trace().a().len()
    }

    /// The trace recorded so far.
    pub closed spec fn trace(&self) -> Trace {
        self.trace
    }

    /// Which gate's wire `B` the next allocation takes, if an allocation
    /// is waiting for its partner.
    pub closed spec fn available_b(&self) -> Option<usize> {
        self.available_b
    }

    /// An evaluator that has recorded gate 0 and nothing else.
    pub fn new() -> (r: Evaluator)
        ensures
            r.well_formed(),
            r.trace().a() == seq![0nat],
            r.trace().b() == seq![0nat],
            r.trace().c() == seq![0nat],
            r.available_b() is None,
    {
        Evaluator { trace: Trace::new(), available_b: None }
    }

    /// Records a multiplication gate with the given values.
    pub fn mul(&mut self, a: Scalar, b: Scalar, c: Scalar)
        requires
            old(self).well_formed(),
        ensures
            final(self).well_formed(),
            final(self).trace().a() == old(self).trace().a().push(a@),
            final(self).trace().b() == old(self).trace().b().push(b@),
            final(self).trace().c() == old(self).trace().c().push(c@),
            final(self).available_b() == old(self).available_b(),
    {
        self.trace.push(a, b, c);
    }

    /// Records one allocated value: in wire `B` of a gate that waits for
    /// a partner, where there is one, and else in wire `A` of a new gate.
    pub fn alloc_value(&mut self, value: Scalar)
        requires
            old(self).well_formed(),
        ensures
            final(self).well_formed(),
            match old(self).available_b() {
                Some(index) => {
                    &&& final(self).available_b() is None
                    &&& final(self).trace().a() == old(self).trace().a()
                    &&& final(self).trace().b() == old(self).trace().b().update(
                        index as int,
                        value@,
                    )
                    &&& final(self).trace().c() == old(self).trace().c().update(
                        index as int,
                        fmul(old(self).trace().a()[index as int], value@),
                    )
                },
                None => {
                    &&& final(self).available_b() == Some(old(self).trace().a().len() as usize)
                    &&& final(self).trace().a() == old(self).trace().a().push(value@)
                    &&& final(self).trace().b() == old(self).trace().b().push(0)
                    &&& final(self).trace().c() == old(self).trace().c().push(0)
                },
            },
    {
        match self.available_b {
            Some(index) => {
                self.trace.fill(index, value);
                self.available_b = None;
            },
            None => {
                let index = self.trace.len();
                let zero = Scalar::zero();
                self.trace.push(value, zero, zero);
                self.available_b = Some(index);
            },
        }
    }

    /// Forgets a gate that waits for a partner, as at the border of a
    /// routine: the next allocation opens a new gate.
    pub fn reset_scope(&mut self)
        requires
            old(self).well_formed(),
        ensures
            final(self).well_formed(),
            final(self).trace() == old(self).trace(),
            final(self).available_b() is None,
    {
        self.available_b = None;
    }

    /// The trace recorded.
    pub fn finish(self) -> (r: Trace)
        requires
            self.well_formed(),
        ensures
            r == self.trace(),
            r.well_formed(),
    {
        self.trace
    }
}

/// A computation that assigns values to the wires of multiplication gates.
pub trait Circuit {
    /// What the computation starts from.
    type Witness;

    /// What the computation hands back besides the trace.
    type Aux;

    /// Runs the computation, recording every value it assigns.
    fn witness(&self, dr: &mut Evaluator, witness: Self::Witness) -> (r: Result<Self::Aux, Error>)
        requires
            old(dr).well_formed(),
        ensures
            final(dr).well_formed(),
    ;
}

/// Whether the evaluator has recorded gate 0 and nothing else, and no
/// allocation waits for its partner: the state that [`Evaluator::new`]
/// makes.
pub open spec fn fresh(dr: Evaluator) -> bool {
    &&& dr.well_formed()
    &&& dr.trace().a() == seq![0nat]
    &&& dr.trace().b() == seq![0nat]
    &&& dr.trace().c() == seq![0nat]
    &&& dr.available_b() is None
}

/// The trace of `circuit` on `witness`, and what the circuit handed back.
/// The circuit is run once, on a fresh evaluator. Where it succeeds, the
/// trace is what the evaluator has recorded when the circuit returns, and
/// it comes with what the circuit handed back; where it fails, its error is
/// passed on.
pub fn eval<C: Circuit>(circuit: &C, witness: C::Witness) -> (r: Result<(Trace, C::Aux), Error>)
    ensures
        exists|dr: &mut Evaluator, outcome: Result<C::Aux, Error>|
            {
                &&& fresh(*dr)
                &&& #[trigger] call_ensures(C::witness, (circuit, dr, witness), outcome)
                &&& match outcome {
                    Ok(aux) => r matches Ok((trace, handed_back)) && trace == (*final(dr)).trace()
                        && handed_back == aux,
                    Err(e) => r matches Err(passed_on) && passed_on == e,
                }
            },
        r matches Ok((trace, aux)) ==> trace.well_formed(),
{
    let mut dr = Evaluator::new();
    let outcome = circuit.witness(&mut dr, witness);
    match outcome {
        Ok(aux) => Ok((dr.finish(), aux)),
        Err(e) => Err(e),
    }
}

} // verus!
