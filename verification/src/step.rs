//! Steps of a computation and the headers that they consume and produce.
//!
//! A header stands for the data that a proof carries. It is encoded as a
//! fixed number of field elements: the elements of the data, zeros, and in
//! the last place the header's suffix, which tells the kinds of header
//! apart.

use crate::error::Error;
use crate::field::Scalar;
use crate::polynomials::values;
use vstd::prelude::*;

verus! {

/// The number of suffixes that are kept for the headers of this library;
/// the suffixes that applications choose follow them.
pub const INTERNAL_SUFFIXES: u64 = 2;

/// The value that tells one kind of header from another.
#[derive(Clone, Copy, Debug, PartialEq, Eq, Structural)]
pub struct Suffix {
    value: u64,
}

impl Suffix {
    /// The number that is written in the last place of an encoded header.
    pub closed spec fn spec_value(&self) -> nat {
        self.value as nat
    }

    /// The suffix of an application's header: its number, after the ones
    /// that are kept for this library. A number so large that the suffix
    /// cannot be held yields none.
    pub fn new(value: u64) -> (r: Option<Suffix>)
        ensures
            r is Some <==> value + INTERNAL_SUFFIXES <= u64::MAX,
            r matches Some(s) ==> s.spec_value() == value + INTERNAL_SUFFIXES,
    {
        if value > u64::MAX - INTERNAL_SUFFIXES {
            None
        } else {
            Some(Suffix { value: value + INTERNAL_SUFFIXES })
        }
    }

    /// One of the suffixes that are kept for this library.
    pub fn internal(value: u64) -> (r: Option<Suffix>)
        ensures
            r is Some <==> value < INTERNAL_SUFFIXES,
            r matches Some(s) ==> s.spec_value() == value,
    {
        if value < INTERNAL_SUFFIXES {
            Some(Suffix { value })
        } else {
            None
        }
    }

    /// The number that is written in the last place of an encoded header.
    pub fn value(&self) -> (r: u64)
        ensures
            r == self.spec_value(),
    {
        self.value
    }
}

/// A kind of data that a proof can carry, and how it is turned into field
/// elements. Applications implement it for their own headers; nothing is
/// assumed of an implementation.
pub trait Header {
    /// The data that the header stands for.
    type Data;

    /// The suffix of this kind of header.
    fn suffix() -> Suffix;

    /// Encodes `data` as field elements.
    fn encode(data: &Self::Data) -> Vec<Scalar>;
}

/// The header that carries nothing: no elements, and the first of the
/// suffixes that are kept for this library.
impl Header for () {
    type Data = ();

    fn suffix() -> (r: Suffix)
        ensures
            r.spec_value() == 0,
    {
        Suffix { value: 0 }
    }

    fn encode(data: &()) -> (r: Vec<Scalar>)
        ensures
            r@.len() == 0,
    {
        Vec::new()
    }
}

/// The elements of a header, zeros up to the last place, and the suffix in
/// the last place: `header_size` field elements in all.
pub open spec fn padded_header(elements: Seq<nat>, suffix: nat, header_size: nat) -> Seq<nat> {
    Seq::new(
        header_size,
        |i: int|
            if i < elements.len() {
                elements[i]
            } else if i == header_size - 1 {
                suffix
            } else {
                0
            },
    )
}

/// How an encoded header is held.
#[derive(Clone, Debug)]
enum EncodedInner {
    /// The elements of the data, still to be padded when written.
    Gadget { elements: Vec<Scalar>, suffix: Suffix },
    /// The padded encoding, of the same length for every kind of header.
    Uniform(Vec<Scalar>),
}

/// The result of encoding a header within a step.
#[derive(Clone, Debug)]
pub struct Encoded(EncodedInner);

impl Encoded {
    /// Whether the header is held by the elements of its data.
    pub closed spec fn is_gadget(&self) -> bool {
        self.0 is Gadget
    }

    /// The elements of the data, where the header is held by them.
    pub closed spec fn elements(&self) -> Seq<nat> {
        match self.0 {
            EncodedInner::Gadget { elements, suffix } => values(elements@),
            EncodedInner::Uniform(padded) => values(padded@),
        }
    }

    /// The suffix, where the header is held by the elements of its data.
    pub closed spec fn suffix(&self) -> nat {
        match self.0 {
            EncodedInner::Gadget { elements, suffix } => suffix.spec_value(),
            EncodedInner::Uniform(padded) => 0,
        }
    }

    /// What writing the header appends, if it can be written with the given
    /// header size.
    pub open spec fn written(&self, header_size: nat) -> Option<Seq<nat>> {
        if self.is_gadget() {
            if self.elements().len() + 1 <= header_size {
                Some(padded_header(self.elements(), self.suffix(), header_size))
            } else {
                None
            }
        } else {
            Some(self.elements())
        }
    }

    /// An encoded header from the elements of its data and its suffix.
    pub fn from_gadget(elements: Vec<Scalar>, suffix: Suffix) -> (r: Encoded)
        ensures
            r.is_gadget(),
            r.elements() == values(elements@),
            r.suffix() == suffix.spec_value(),
    {
        Encoded(EncodedInner::Gadget { elements, suffix })
    }

    /// The elements of the data. Only a header that is held by them has
    /// any.
    pub fn as_gadget(&self) -> (r: &Vec<Scalar>)
        requires
            self.is_gadget(),
        ensures
            values(r@) == self.elements(),
    {
        match &self.0 {
            EncodedInner::Gadget { elements, suffix } => elements,
            EncodedInner::Uniform(padded) => padded,
        }
    }

    /// The header encoded from its data: what [`Encoded::from_gadget`] makes
    /// of the elements that the header's `encode` gives for `data` and of
    /// the suffix that its `suffix` gives.
    pub fn new<H: Header>(data: &H::Data) -> (r: Encoded)
        ensures
            r.is_gadget(),
            exists|elements: Vec<Scalar>, suffix: Suffix|
                {
                    &&& #[trigger] call_ensures(H::encode, (data,), elements)
                    &&& #[trigger] call_ensures(H::suffix, (), suffix)
                    &&& r.elements() == values(elements@)
                    &&& r.suffix() == suffix.spec_value()
                },
    {
        let elements = H::encode(data);
        let suffix = H::suffix();
        let r = Encoded::from_gadget(elements, suffix);
        assert(call_ensures(H::encode, (data,), elements) && call_ensures(H::suffix, (), suffix));
        r
    }

    /// An encoded header from the elements of its data and its suffix,
    /// padded at once, so that headers of every kind are held alike. More
    /// elements than the header size leaves room for are refused.
    pub fn uniform(elements: Vec<Scalar>, suffix: Suffix, header_size: usize) -> (r: Result<
        Encoded,
        Error,
    >)
        ensures
            match r {
                Ok(e) => {
                    &&& elements@.len() + 1 <= header_size
                    &&& !e.is_gadget()
                    &&& e.elements() == padded_header(
                        values(elements@),
                        suffix.spec_value(),
                        header_size as nat,
                    )
                },
                Err(e) => elements@.len() + 1 > header_size && e == Error::LengthMismatch,
            },
    {
        let mut raw: Vec<Scalar> = Vec::new();
        match pad_into(&elements, suffix, header_size, &mut raw) {
            Ok(()) => {
                assert(raw@ =~= raw@.subrange(0, raw@.len() as int));
                assert(values(raw@) =~= padded_header(
                    values(elements@),
                    suffix.spec_value(),
                    header_size as nat,
                ));
                Ok(Encoded(EncodedInner::Uniform(raw)))
            },
            Err(e) => Err(e),
        }
    }

    /// The header encoded from its data and padded at once: what
    /// [`Encoded::uniform`] makes of the elements that the header's
    /// `encode` gives for `data` and of the suffix that its `suffix` gives.
    /// It fails exactly when those elements leave no room for the suffix.
    pub fn new_uniform<H: Header>(data: &H::Data, header_size: usize) -> (r: Result<
        Encoded,
        Error,
    >)
        ensures
            exists|elements: Vec<Scalar>, suffix: Suffix|
                {
                    &&& #[trigger] call_ensures(H::encode, (data,), elements)
                    &&& #[trigger] call_ensures(H::suffix, (), suffix)
                    &&& match r {
                        Ok(e) => {
                            &&& elements@.len() + 1 <= header_size
                            &&& !e.is_gadget()
                            &&& e.elements() == padded_header(
                                values(elements@),
                                suffix.spec_value(),
                                header_size as nat,
                            )
                        },
                        Err(e) => elements@.len() + 1 > header_size && e == Error::LengthMismatch,
                    }
                },
    {
        let elements = H::encode(data);
        let suffix = H::suffix();
        let ghost given = elements;
        let r = Encoded::uniform(elements, suffix, header_size);
        assert(call_ensures(H::encode, (data,), given) && call_ensures(H::suffix, (), suffix));
        r
    }

    /// Appends the encoding to `buf`: `header_size` field elements, the
    /// suffix last. A header with more elements than the header size leaves
    /// room for is refused, and `buf` is left as it was.
    pub fn write(&self, header_size: usize, buf: &mut Vec<Scalar>) -> (r: Result<(), Error>)
        ensures
            match r {
                Ok(()) => self.written(header_size as nat) matches Some(w) && values(final(buf)@)
                    == values(old(buf)@) + w,
                Err(e) => self.written(header_size as nat) is None && e == Error::LengthMismatch
                    && final(buf)@ == old(buf)@,
            },
    {
        match &self.0 {
            EncodedInner::Gadget { elements, suffix } => {
                let ghost before = buf@;
                let r = pad_into(elements, *suffix, header_size, buf);
                proof {
                    if r is Ok {
                        assert(values(buf@) =~= values(before) + padded_header(
                            values(elements@),
                            suffix.spec_value(),
                            header_size as nat,
                        ));
                    }
                }
                r
            },
            EncodedInner::Uniform(padded) => {
                let ghost before = buf@;
                let mut i: usize = 0;
                while i < padded.len()
                    invariant
                        i <= padded@.len(),
                        buf@ == before + padded@.subrange(0, i as int),
                    decreases padded@.len() - i,
                {
                    buf.push(padded[i]);
                    assert(buf@ =~= before + padded@.subrange(0, i + 1));
                    i += 1;
                }
                assert(padded@.subrange(0, padded@.len() as int) =~= padded@);
                assert(values(buf@) =~= values(before) + values(padded@));
                Ok(())
            },
        }
    }
}

/// Appends the elements, zeros and the suffix to `buf`, `header_size` field
/// elements in all.
fn pad_into(
    elements: &Vec<Scalar>,
    suffix: Suffix,
    header_size: usize,
    buf: &mut Vec<Scalar>,
) -> (r: Result<(), Error>)
    ensures
        match r {
            Ok(()) => {
                &&& elements@.len() + 1 <= header_size
                &&& final(buf)@.len() == old(buf)@.len() + header_size
                &&& final(buf)@.subrange(0, old(buf)@.len() as int) == old(buf)@
                &&& values(final(buf)@.subrange(old(buf)@.len() as int, final(buf)@.len() as int))
                    == padded_header(values(elements@), suffix.spec_value(), header_size as nat)
            },
            Err(e) => {
                &&& elements@.len() + 1 > header_size
                &&& e == Error::LengthMismatch
                &&& final(buf)@ == old(buf)@
            },
        },
{
    if elements.len() >= header_size {
        return Err(Error::LengthMismatch);
    }
    let ghost before = buf@;
    let ghost target = padded_header(values(elements@), suffix.spec_value(), header_size as nat);
    let mut i: usize = 0;
    while i < header_size
        invariant
            i <= header_size,
            elements@.len() + 1 <= header_size,
            target == padded_header(values(elements@), suffix.spec_value(), header_size as nat),
            buf@.len() == before.len() + i,
            buf@.subrange(0, before.len() as int) == before,
            forall|k: int| 0 <= k < i ==> (#[trigger] buf@[before.len() + k])@ == target[k],
        decreases header_size - i,
    {
        let v = if i < elements.len() {
            elements[i]
        } else if i == header_size - 1 {
            Scalar::from_u64(suffix.value())
        } else {
            Scalar::zero()
        };
        let ghost prev = buf@;
        buf.push(v);
        assert(buf@.subrange(0, before.len() as int) =~= prev.subrange(0, before.len() as int));
        i += 1;
    }
    proof {
        let tail = buf@.subrange(before.len() as int, buf@.len() as int);
        assert forall|k: int| 0 <= k < header_size implies values(tail)[k] == target[k] by {
            assert(tail[k] == buf@[before.len() + k]);
        }
        assert(values(tail) =~= target);
    }
    Ok(())
}

/// Which of the steps of this library a step is.
#[derive(Clone, Copy, Debug, PartialEq, Eq, Structural)]
pub enum InternalStepIndex {
    /// The step that changes the blinding of a proof and nothing else.
    Rerandomize,
    /// The step that makes a proof with the header that carries nothing.
    Trivial,
}

/// The place of a step among the steps of an application.
#[derive(Clone, Copy, Debug, PartialEq, Eq, Structural)]
pub enum Index {
    /// A step of this library.
    Internal(InternalStepIndex),
    /// The step that an application registered in the given place.
    Application(usize),
}

impl Index {
    /// The index of the step that an application registers in place
    /// `value`.
    pub fn new(value: usize) -> (r: Index)
        ensures
            r == Index::Application(value),
    {
        Index::Application(value)
    }

    /// The index of a step of this library.
    pub fn internal(value: InternalStepIndex) -> (r: Index)
        ensures
            r == Index::Internal(value),
    {
        Index::Internal(value)
    }
}

/// One transition of a computation: from the data of two proofs and a
/// witness to the headers of those two proofs and of the proof to be made.
pub trait Step {
    /// What the step needs besides the two proofs.
    type Witness;

    /// What the step hands back to its caller.
    type Aux;

    /// The header of the left proof.
    type Left: Header;

    /// The header of the right proof.
    type Right: Header;

    /// The header of the proof to be made.
    type Output: Header;

    /// The place of the step among the steps of its application.
    fn index(&self) -> Index;

    /// The encoded headers of the left proof, the right proof and the proof
    /// to be made, and what the caller gets back.
    fn witness(
        &self,
        witness: Self::Witness,
        left: &<Self::Left as Header>::Data,
        right: &<Self::Right as Header>::Data,
    ) -> Result<((Encoded, Encoded, Encoded), Self::Aux), Error>;
}

/// The step that makes a proof with the header that carries nothing from
/// two proofs with that header.
#[derive(Clone, Copy, Debug)]
pub struct Trivial;

impl Trivial {
    /// The step.
    pub fn new() -> (r: Trivial)
        ensures
            r == Trivial,
    {
        Trivial
    }
}

impl Step for Trivial {
    type Witness = ();

    type Aux = ();

    type Left = ();

    type Right = ();

    type Output = ();

    fn index(&self) -> (r: Index)
        ensures
            r == Index::Internal(InternalStepIndex::Trivial),
    {
        Index::internal(InternalStepIndex::Trivial)
    }

    fn witness(&self, witness: (), left: &(), right: &()) -> (r: Result<
        ((Encoded, Encoded, Encoded), ()),
        Error,
    >)
        ensures
            r matches Ok(((l, r, o), aux)) && l.written(1) == Some(seq![0nat]) && r.written(1)
                == Some(seq![0nat]) && o.written(1) == Some(seq![0nat]),
    {
        let left = Encoded::from_gadget(<() as Header>::encode(left), <() as Header>::suffix());
        let right = Encoded::from_gadget(<() as Header>::encode(right), <() as Header>::suffix());
        let output = Encoded::from_gadget(<() as Header>::encode(&()), <() as Header>::suffix());
        proof {
            assert(padded_header(Seq::<nat>::empty(), 0, 1) =~= seq![0nat]);
            assert(left.elements() =~= Seq::<nat>::empty());
            assert(right.elements() =~= Seq::<nat>::empty());
            assert(output.elements() =~= Seq::<nat>::empty());
        }
        Ok(((left, right, output), ()))
    }
}

} // verus!
