//! The order of a fusion.
//!
//! A fusion alternates between work that this library does, work that the
//! arithmetizer does, and the transcript. The schedule decides what comes
//! next: [`Application::fuse`] takes what has just happened and answers
//! with what is to happen now, and [`Fusion::feed`] names the challenges
//! that feed the round under way. It never lets a challenge be squeezed
//! before the
//! commitment that the challenge must bind has been absorbed, and never
//! lets a round be computed before the challenges that the round uses have
//! been squeezed; [`lemma_challenges_precede_their_use`] and
//! [`lemma_commitments_precede_their_challenges`] prove this of the
//! schedule itself.

use crate::error::Error;
use crate::field::Scalar;
use crate::fuse::Application;
use crate::nested::NestedPoint;
use crate::pcd::Challenges;
use crate::polynomials::values;
use vstd::prelude::*;

verus! {

/// A round of a fusion.
#[derive(Clone, Copy, Debug, PartialEq, Eq, Structural)]
pub enum Round {
    /// Commits to the identities and headers of the two proofs consumed.
    Preamble,
    /// Commits to the registry polynomial restricted to the `x` challenges
    /// of the two proofs consumed.
    SPrime,
    /// Commits to the error terms of the first layer.
    ErrorM,
    /// Commits to the error terms of the second layer and to the values
    /// that the groups collapsed to.
    ErrorN,
    /// Commits to the folded polynomials `A` and `B`.
    AB,
    /// Commits to the answers to the queries at `x`.
    Query,
    /// Commits to the combined quotient polynomial.
    F,
    /// Commits to the values of every polynomial at `u`.
    Eval,
    /// Accumulates every polynomial into one.
    P,
    /// Computes the traces of the circuits that check the rounds.
    InternalCircuits,
}

/// A challenge of a fusion.
#[derive(Clone, Copy, Debug, PartialEq, Eq, Structural)]
pub enum Challenge {
    /// Binds the preamble.
    W,
    /// Binds the restricted registry polynomials; squeezed first.
    Y,
    /// Binds the restricted registry polynomials; squeezed second.
    Z,
    /// Binds the error terms of the first layer; squeezed first.
    Mu,
    /// Binds the error terms of the first layer; squeezed second.
    Nu,
    /// Binds the error terms of the second layer; squeezed first.
    MuPrime,
    /// Binds the error terms of the second layer; squeezed second.
    NuPrime,
    /// Binds the folded polynomials.
    X,
    /// Binds the answers to the queries.
    Alpha,
    /// Binds the combined quotient polynomial.
    U,
    /// Binds the values at `u`.
    PreBeta,
}

/// One step of the schedule.
#[derive(Clone, Copy, Debug, PartialEq, Eq, Structural)]
pub enum Step {
    /// The round is computed and, but for the last two rounds, committed
    /// to.
    Compute(Round),
    /// The nested commitment of the round is absorbed into the transcript.
    Absorb(Round),
    /// The challenge is squeezed from the transcript.
    Squeeze(Challenge),
    /// The state of the transcript is copied, to be replayed later.
    SaveState,
    /// The proof is put together.
    Finish,
}

/// The number of steps of a fusion.
pub const NUM_STEPS: usize = 31;

/// The step at the given position: each round is computed, its commitment
/// absorbed, and the challenges that bind it squeezed, before the next round
/// begins.
pub open spec fn step_spec(position: int) -> Step {
    if position == 0 {
        Step::Compute(Round::Preamble)
    } else if position == 1 {
        Step::Absorb(Round::Preamble)
    } else if position == 2 {
        Step::Squeeze(Challenge::W)
    } else if position == 3 {
        Step::Compute(Round::SPrime)
    } else if position == 4 {
        Step::Absorb(Round::SPrime)
    } else if position == 5 {
        Step::Squeeze(Challenge::Y)
    } else if position == 6 {
        Step::Squeeze(Challenge::Z)
    } else if position == 7 {
        Step::Compute(Round::ErrorM)
    } else if position == 8 {
        Step::Absorb(Round::ErrorM)
    } else if position == 9 {
        Step::SaveState
    } else if position == 10 {
        Step::Squeeze(Challenge::Mu)
    } else if position == 11 {
        Step::Squeeze(Challenge::Nu)
    } else if position == 12 {
        Step::Compute(Round::ErrorN)
    } else if position == 13 {
        Step::Absorb(Round::ErrorN)
    } else if position == 14 {
        Step::Squeeze(Challenge::MuPrime)
    } else if position == 15 {
        Step::Squeeze(Challenge::NuPrime)
    } else if position == 16 {
        Step::Compute(Round::AB)
    } else if position == 17 {
        Step::Absorb(Round::AB)
    } else if position == 18 {
        Step::Squeeze(Challenge::X)
    } else if position == 19 {
        Step::Compute(Round::Query)
    } else if position == 20 {
        Step::Absorb(Round::Query)
    } else if position == 21 {
        Step::Squeeze(Challenge::Alpha)
    } else if position == 22 {
        Step::Compute(Round::F)
    } else if position == 23 {
        Step::Absorb(Round::F)
    } else if position == 24 {
        Step::Squeeze(Challenge::U)
    } else if position == 25 {
        Step::Compute(Round::Eval)
    } else if position == 26 {
        Step::Absorb(Round::Eval)
    } else if position == 27 {
        Step::Squeeze(Challenge::PreBeta)
    } else if position == 28 {
        Step::Compute(Round::P)
    } else if position == 29 {
        Step::Compute(Round::InternalCircuits)
    } else {
        Step::Finish
    }
}

/// The steps of a fusion, in order.
pub open spec fn schedule() -> Seq<Step> {
    Seq::new(NUM_STEPS as nat, |i: int| step_spec(i))
}

/// Whether the round uses the challenge.
pub open spec fn uses(round: Round, challenge: Challenge) -> bool {
    match round {
        Round::Preamble => false,
        Round::SPrime => challenge == Challenge::W,
        Round::ErrorM => challenge == Challenge::W || challenge == Challenge::Y || challenge
            == Challenge::Z,
        Round::ErrorN => challenge == Challenge::Y || challenge == Challenge::Mu || challenge
            == Challenge::Nu,
        Round::AB => challenge == Challenge::MuPrime || challenge == Challenge::NuPrime,
        Round::Query => challenge == Challenge::W || challenge == Challenge::X || challenge
            == Challenge::Y || challenge == Challenge::Z,
        Round::F => challenge == Challenge::W || challenge == Challenge::Y || challenge
            == Challenge::Z || challenge == Challenge::X || challenge == Challenge::Alpha,
        Round::Eval => challenge == Challenge::U,
        Round::P => challenge == Challenge::PreBeta || challenge == Challenge::U,
        Round::InternalCircuits => true,
    }
}

/// The round whose commitment the challenge must bind.
pub open spec fn binds(challenge: Challenge) -> Round {
    match challenge {
        Challenge::W => Round::Preamble,
        Challenge::Y => Round::SPrime,
        Challenge::Z => Round::SPrime,
        Challenge::Mu => Round::ErrorM,
        Challenge::Nu => Round::ErrorM,
        Challenge::MuPrime => Round::ErrorN,
        Challenge::NuPrime => Round::ErrorN,
        Challenge::X => Round::AB,
        Challenge::Alpha => Round::Query,
        Challenge::U => Round::F,
        Challenge::PreBeta => Round::Eval,
    }
}

/// Every step occurs once in the schedule; this is where.
pub open spec fn position_of(step: Step) -> int {
    choose|i: int| 0 <= i < schedule().len() && schedule()[i] == step
}

/// No step occurs twice in the schedule.
pub proof fn lemma_schedule_has_no_repetition(i: int, j: int)
    requires
        0 <= i < schedule().len(),
        0 <= j < schedule().len(),
        schedule()[i] == schedule()[j],
    ensures
        i == j,
{
}

/// A step at position `i` of the schedule has position `i`.
pub proof fn lemma_position_of(i: int)
    requires
        0 <= i < schedule().len(),
    ensures
        position_of(schedule()[i]) == i,
{
    let j = position_of(schedule()[i]);
    lemma_schedule_has_no_repetition(i, j);
}

/// Where in the schedule the challenge is squeezed.
pub open spec fn squeeze_position(challenge: Challenge) -> int {
    match challenge {
        Challenge::W => 2,
        Challenge::Y => 5,
        Challenge::Z => 6,
        Challenge::Mu => 10,
        Challenge::Nu => 11,
        Challenge::MuPrime => 14,
        Challenge::NuPrime => 15,
        Challenge::X => 18,
        Challenge::Alpha => 21,
        Challenge::U => 24,
        Challenge::PreBeta => 27,
    }
}

/// Where in the schedule the round is computed.
pub open spec fn compute_position(round: Round) -> int {
    match round {
        Round::Preamble => 0,
        Round::SPrime => 3,
        Round::ErrorM => 7,
        Round::ErrorN => 12,
        Round::AB => 16,
        Round::Query => 19,
        Round::F => 22,
        Round::Eval => 25,
        Round::P => 28,
        Round::InternalCircuits => 29,
    }
}

/// The places named by [`squeeze_position`] and [`compute_position`] are
/// the places of those steps, and the commitment of a round that has one
/// is absorbed in the step after the round.
pub proof fn lemma_positions(round: Round, challenge: Challenge)
    ensures
        position_of(Step::Squeeze(challenge)) == squeeze_position(challenge),
        position_of(Step::Compute(round)) == compute_position(round),
        round != Round::P && round != Round::InternalCircuits ==> position_of(
            Step::Absorb(round),
        ) == compute_position(round) + 1,
{
    let s = schedule();
    let i = squeeze_position(challenge);
    let j = compute_position(round);
    assert(s[i] == Step::Squeeze(challenge));
    assert(s[j] == Step::Compute(round));
    lemma_position_of(i);
    lemma_position_of(j);
    if round != Round::P && round != Round::InternalCircuits {
        assert(s[j + 1] == Step::Absorb(round));
        lemma_position_of(j + 1);
    }
}

/// A challenge is squeezed before any round that uses it is computed.
pub proof fn lemma_challenges_precede_their_use(round: Round, challenge: Challenge)
    requires
        uses(round, challenge),
    ensures
        position_of(Step::Squeeze(challenge)) < position_of(Step::Compute(round)),
{
    lemma_positions(round, challenge);
}

/// The commitment that a challenge must bind is absorbed before the
/// challenge is squeezed, and between the two nothing is computed and
/// nothing else absorbed.
pub proof fn lemma_commitments_precede_their_challenges(challenge: Challenge)
    ensures
        position_of(Step::Absorb(binds(challenge))) < position_of(Step::Squeeze(challenge)),
        forall|k: int|
            position_of(Step::Absorb(binds(challenge))) < k < position_of(
                Step::Squeeze(challenge),
            ) ==> !(#[trigger] schedule()[k] is Compute) && !(schedule()[k] is Absorb),
{
    lemma_positions(binds(challenge), challenge);
}

/// The state of the transcript is copied right after the commitment of the
/// first layer's error terms has been absorbed, before anything else is
/// absorbed or squeezed.
pub proof fn lemma_snapshot_follows_error_m()
    ensures
        position_of(Step::SaveState) == position_of(Step::Absorb(Round::ErrorM)) + 1,
        position_of(Step::Squeeze(Challenge::Mu)) == position_of(Step::SaveState) + 1,
{
    let s = schedule();
    assert(s[8] == Step::Absorb(Round::ErrorM));
    assert(s[9] == Step::SaveState);
    assert(s[10] == Step::Squeeze(Challenge::Mu));
    lemma_position_of(8);
    lemma_position_of(9);
    lemma_position_of(10);
}

/// What the schedule asks for.
#[derive(Clone, Debug)]
pub enum Action {
    /// Compute the round; but for the last two rounds, commit to it and
    /// report its nested commitment.
    Compute(Round),
    /// Absorb the point into the transcript.
    Absorb(NestedPoint),
    /// Squeeze the challenge from the transcript.
    Squeeze(Challenge),
    /// Copy the state of the transcript and report it.
    SaveState,
    /// Put the proof together; these are its challenges, and this is the
    /// state of the transcript that was copied.
    Finish(Challenges, Vec<Scalar>),
}

/// What has just happened.
#[derive(Clone, Debug)]
pub enum Event {
    /// A round was computed and committed to; this is its nested
    /// commitment.
    Committed(NestedPoint),
    /// One of the last two rounds, which commit to nothing that is
    /// absorbed, was computed.
    Computed,
    /// The point was absorbed.
    Absorbed,
    /// The challenge was squeezed; this is its value.
    Squeezed(Scalar),
    /// The state of the transcript was copied; this is the copy.
    StateSaved(Vec<Scalar>),
    /// What was asked for failed; this is the error.
    Failed(Error),
}

/// The error with which a fusion ends where the event is not what the step
/// under way waits for: the error of what failed, unchanged, and else the
/// error of an event out of turn.
pub open spec fn ending(event: Event) -> Error {
    match event {
        Event::Failed(e) => e,
        _ => Error::UnexpectedEvent,
    }
}

/// Whether the event is what the step waits for.
pub open spec fn awaited(step: Step, event: Event) -> bool {
    match step {
        Step::Compute(round) => if round == Round::P || round == Round::InternalCircuits {
            event is Computed
        } else {
            event is Committed
        },
        Step::Absorb(round) => event is Absorbed,
        Step::Squeeze(challenge) => event is Squeezed,
        Step::SaveState => event is StateSaved,
        Step::Finish => false,
    }
}

/// The number of challenges squeezed in the first `position` steps.
pub open spec fn squeezed_before(position: int) -> nat {
    if position <= 2 {
        0
    } else if position <= 5 {
        1
    } else if position <= 6 {
        2
    } else if position <= 10 {
        3
    } else if position <= 11 {
        4
    } else if position <= 14 {
        5
    } else if position <= 15 {
        6
    } else if position <= 18 {
        7
    } else if position <= 21 {
        8
    } else if position <= 24 {
        9
    } else if position <= 27 {
        10
    } else {
        11
    }
}

/// The number of commitments absorbed in the first `position` steps.
pub open spec fn absorbed_before(position: int) -> nat {
    if position <= 1 {
        0
    } else if position <= 4 {
        1
    } else if position <= 8 {
        2
    } else if position <= 13 {
        3
    } else if position <= 17 {
        4
    } else if position <= 20 {
        5
    } else if position <= 23 {
        6
    } else if position <= 26 {
        7
    } else {
        8
    }
}

/// The counts follow the schedule: a step that squeezes adds one challenge,
/// a step that absorbs adds one commitment, and no other step adds any.
pub proof fn lemma_counts_follow_schedule(position: int)
    requires
        0 <= position < schedule().len(),
    ensures
        squeezed_before(position + 1) == squeezed_before(position) + if schedule()[position]
            is Squeeze {
            1nat
        } else {
            0nat
        },
        absorbed_before(position + 1) == absorbed_before(position) + if schedule()[position]
            is Absorb {
            1nat
        } else {
            0nat
        },
        squeezed_before(0) == 0,
        absorbed_before(0) == 0,
{
}

/// The step at the given position of the schedule.
pub fn step_at(position: usize) -> (r: Step)
    requires
        position < NUM_STEPS,
    ensures
        r == schedule()[position as int],
{
    if position == 0 {
        Step::Compute(Round::Preamble)
    } else if position == 1 {
        Step::Absorb(Round::Preamble)
    } else if position == 2 {
        Step::Squeeze(Challenge::W)
    } else if position == 3 {
        Step::Compute(Round::SPrime)
    } else if position == 4 {
        Step::Absorb(Round::SPrime)
    } else if position == 5 {
        Step::Squeeze(Challenge::Y)
    } else if position == 6 {
        Step::Squeeze(Challenge::Z)
    } else if position == 7 {
        Step::Compute(Round::ErrorM)
    } else if position == 8 {
        Step::Absorb(Round::ErrorM)
    } else if position == 9 {
        Step::SaveState
    } else if position == 10 {
        Step::Squeeze(Challenge::Mu)
    } else if position == 11 {
        Step::Squeeze(Challenge::Nu)
    } else if position == 12 {
        Step::Compute(Round::ErrorN)
    } else if position == 13 {
        Step::Absorb(Round::ErrorN)
    } else if position == 14 {
        Step::Squeeze(Challenge::MuPrime)
    } else if position == 15 {
        Step::Squeeze(Challenge::NuPrime)
    } else if position == 16 {
        Step::Compute(Round::AB)
    } else if position == 17 {
        Step::Absorb(Round::AB)
    } else if position == 18 {
        Step::Squeeze(Challenge::X)
    } else if position == 19 {
        Step::Compute(Round::Query)
    } else if position == 20 {
        Step::Absorb(Round::Query)
    } else if position == 21 {
        Step::Squeeze(Challenge::Alpha)
    } else if position == 22 {
        Step::Compute(Round::F)
    } else if position == 23 {
        Step::Absorb(Round::F)
    } else if position == 24 {
        Step::Squeeze(Challenge::U)
    } else if position == 25 {
        Step::Compute(Round::Eval)
    } else if position == 26 {
        Step::Absorb(Round::Eval)
    } else if position == 27 {
        Step::Squeeze(Challenge::PreBeta)
    } else if position == 28 {
        Step::Compute(Round::P)
    } else if position == 29 {
        Step::Compute(Round::InternalCircuits)
    } else {
        Step::Finish
    }
}

/// What an action asks for, in plain values.
pub enum ActionView {
    /// To compute the round.
    Compute(Round),
    /// To absorb the point with these coordinates.
    Absorb((nat, nat)),
    /// To squeeze the challenge.
    Squeeze(Challenge),
    /// To copy the state of the transcript.
    SaveState,
    /// To put the proof together, with these challenges, in the order in
    /// which they were squeezed, and this copy of the state of the
    /// transcript.
    Finish(Seq<nat>, Seq<nat>),
}

/// What an action asks for, in plain values.
pub open spec fn action_view(action: Action) -> ActionView {
    match action {
        Action::Compute(round) => ActionView::Compute(round),
        Action::Absorb(point) => ActionView::Absorb(point@),
        Action::Squeeze(challenge) => ActionView::Squeeze(challenge),
        Action::SaveState => ActionView::SaveState,
        Action::Finish(challenges, state) => ActionView::Finish(
            seq![
                challenges.w@,
                challenges.y@,
                challenges.z@,
                challenges.mu@,
                challenges.nu@,
                challenges.mu_prime@,
                challenges.nu_prime@,
                challenges.x@,
                challenges.alpha@,
                challenges.u@,
                challenges.pre_beta@,
            ],
            values(state@),
        ),
    }
}

/// The place of the challenge among the challenges of a fusion, in the
/// order in which they are squeezed.
pub open spec fn challenge_index(challenge: Challenge) -> int {
    match challenge {
        Challenge::W => 0,
        Challenge::Y => 1,
        Challenge::Z => 2,
        Challenge::Mu => 3,
        Challenge::Nu => 4,
        Challenge::MuPrime => 5,
        Challenge::NuPrime => 6,
        Challenge::X => 7,
        Challenge::Alpha => 8,
        Challenge::U => 9,
        Challenge::PreBeta => 10,
    }
}

/// The challenges that feed a round, each by its name.
#[derive(Clone, Copy, Debug)]
pub enum Feed {
    /// The preamble uses no challenge.
    Preamble,
    /// What the round of the restricted registry polynomials uses.
    SPrime { w: Scalar },
    /// What the round of the first layer's error terms uses.
    ErrorM { w: Scalar, y: Scalar, z: Scalar },
    /// What the round of the second layer's error terms uses.
    ErrorN { y: Scalar, mu: Scalar, nu: Scalar },
    /// What the round of the folded polynomials uses.
    AB { mu_prime: Scalar, nu_prime: Scalar },
    /// What the round of the queries uses.
    Query { w: Scalar, x: Scalar, y: Scalar, z: Scalar },
    /// What the round of the combined quotient uses.
    F { w: Scalar, y: Scalar, z: Scalar, x: Scalar, alpha: Scalar },
    /// What the round of the evaluations uses.
    Eval { u: Scalar },
    /// What the round of the accumulated polynomial uses.
    P { pre_beta: Scalar, u: Scalar },
    /// The last round uses every challenge.
    InternalCircuits(Challenges),
}

impl Feed {
    /// The round that is fed.
    pub open spec fn round(&self) -> Round {
        match *self {
            Feed::Preamble => Round::Preamble,
            Feed::SPrime { w } => Round::SPrime,
            Feed::ErrorM { w, y, z } => Round::ErrorM,
            Feed::ErrorN { y, mu, nu } => Round::ErrorN,
            Feed::AB { mu_prime, nu_prime } => Round::AB,
            Feed::Query { w, x, y, z } => Round::Query,
            Feed::F { w, y, z, x, alpha } => Round::F,
            Feed::Eval { u } => Round::Eval,
            Feed::P { pre_beta, u } => Round::P,
            Feed::InternalCircuits(c) => Round::InternalCircuits,
        }
    }

    /// The value that is carried for the challenge, if one is.
    pub open spec fn carries(&self, challenge: Challenge) -> Option<nat> {
        match *self {
            Feed::Preamble => None,
            Feed::SPrime { w } => match challenge {
                Challenge::W => Some(w@),
                _ => None,
            },
            Feed::ErrorM { w, y, z } => match challenge {
                Challenge::W => Some(w@),
                Challenge::Y => Some(y@),
                Challenge::Z => Some(z@),
                _ => None,
            },
            Feed::ErrorN { y, mu, nu } => match challenge {
                Challenge::Y => Some(y@),
                Challenge::Mu => Some(mu@),
                Challenge::Nu => Some(nu@),
                _ => None,
            },
            Feed::AB { mu_prime, nu_prime } => match challenge {
                Challenge::MuPrime => Some(mu_prime@),
                Challenge::NuPrime => Some(nu_prime@),
                _ => None,
            },
            Feed::Query { w, x, y, z } => match challenge {
                Challenge::W => Some(w@),
                Challenge::X => Some(x@),
                Challenge::Y => Some(y@),
                Challenge::Z => Some(z@),
                _ => None,
            },
            Feed::F { w, y, z, x, alpha } => match challenge {
                Challenge::W => Some(w@),
                Challenge::Y => Some(y@),
                Challenge::Z => Some(z@),
                Challenge::X => Some(x@),
                Challenge::Alpha => Some(alpha@),
                _ => None,
            },
            Feed::Eval { u } => match challenge {
                Challenge::U => Some(u@),
                _ => None,
            },
            Feed::P { pre_beta, u } => match challenge {
                Challenge::PreBeta => Some(pre_beta@),
                Challenge::U => Some(u@),
                _ => None,
            },
            Feed::InternalCircuits(c) => Some(
                match challenge {
                    Challenge::W => c.w@,
                    Challenge::Y => c.y@,
                    Challenge::Z => c.z@,
                    Challenge::Mu => c.mu@,
                    Challenge::Nu => c.nu@,
                    Challenge::MuPrime => c.mu_prime@,
                    Challenge::NuPrime => c.nu_prime@,
                    Challenge::X => c.x@,
                    Challenge::Alpha => c.alpha@,
                    Challenge::U => c.u@,
                    Challenge::PreBeta => c.pre_beta@,
                },
            ),
        }
    }

    /// Whether this is what feeds the round where the challenges squeezed
    /// so far are `squeezed`: it carries the challenges that the round
    /// uses and no others, each with the value that was squeezed for it.
    pub open spec fn feeds(&self, round: Round, squeezed: Seq<nat>) -> bool {
        &&& self.round() == round
        &&& forall|challenge: Challenge|
            #[trigger] self.carries(challenge) == if uses(round, challenge) {
                Some(squeezed[challenge_index(challenge)])
            } else {
                None
            }
    }
}

/// A fusion under way: where in the schedule it stands and what the
/// transcript has taken and given so far.
#[derive(Debug)]
pub struct Fusion {
    position: usize,
    pending: Option<NestedPoint>,
    absorbed: Vec<NestedPoint>,
    squeezed: Vec<Scalar>,
    saved_state: Option<Vec<Scalar>>,
}

/// The views of a list of points.
pub open spec fn point_views(points: Seq<NestedPoint>) -> Seq<(nat, nat)> {
    Seq::new(points.len(), |i: int| points[i]@)
}

/// What the step asks for in the given state: a step that absorbs asks for
/// the pending commitment, the last step hands out the challenges and the
/// copied state.
pub open spec fn asked(step: Step, state: Fusion) -> ActionView {
    match step {
        Step::Compute(round) => ActionView::Compute(round),
        Step::Absorb(round) => ActionView::Absorb(state.pending().unwrap()),
        Step::Squeeze(challenge) => ActionView::Squeeze(challenge),
        Step::SaveState => ActionView::SaveState,
        Step::Finish => ActionView::Finish(state.squeezed(), state.saved_state().unwrap()),
    }
}

/// A fusion is a function of what it is told: from one state and one event
/// follow one state and one answer.
pub proof fn lemma_fusion_is_deterministic(
    state: Fusion,
    event: Event,
    first: Fusion,
    first_action: Action,
    second: Fusion,
    second_action: Action,
)
    requires
        state.advanced(event, first, first_action),
        state.advanced(event, second, second_action),
    ensures
        first.position() == second.position(),
        first.absorbed() == second.absorbed(),
        first.squeezed() == second.squeezed(),
        first.saved_state() == second.saved_state(),
        first.pending() == second.pending(),
        action_view(first_action) == action_view(second_action),
{
}

impl Fusion {
    /// Whether the state is one that a fusion can be in: what has been
    /// absorbed and squeezed is what the steps taken so far absorb and
    /// squeeze.
    pub closed spec fn well_formed(&self) -> bool {
        &&& self.position < NUM_STEPS
        &&& self.absorbed@.len() == absorbed_before(self.position as int)
        &&& self.squeezed@.len() == squeezed_before(self.position as int)
        &&& self.pending is Some <==> schedule()[self.position as int] is Absorb
        &&& self.saved_state is Some <==> self.position > 9
    }

    /// The position in the schedule: the step that is under way.
    pub closed spec fn position(&self) -> nat {
        self.position as nat
    }

    /// The commitments absorbed so far, in order.
    pub closed spec fn absorbed(&self) -> Seq<(nat, nat)> {
        point_views(self.absorbed@)
    }

    /// The challenges squeezed so far, in order.
    pub closed spec fn squeezed(&self) -> Seq<nat> {
        values(self.squeezed@)
    }

    /// The commitment that is being absorbed, if the step under way
    /// absorbs one.
    pub closed spec fn pending(&self) -> Option<(nat, nat)> {
        match self.pending {
            Some(p) => Some(p@),
            None => None,
        }
    }

    /// The copy of the state of the transcript, once it has been taken.
    pub closed spec fn saved_state(&self) -> Option<Seq<nat>> {
        match self.saved_state {
            Some(s) => Some(values(s@)),
            None => None,
        }
    }

    /// A fusion at its first step, and what that step asks for: to compute
    /// the preamble.
    pub fn start() -> (r: (Fusion, Action))
        ensures
            r.0.well_formed(),
            r.0.position() == 0,
            r.0.absorbed() == Seq::<(nat, nat)>::empty(),
            r.0.squeezed() == Seq::<nat>::empty(),
            r.0.pending() is None,
            r.0.saved_state() is None,
            r.1 matches Action::Compute(round) && round == Round::Preamble,
    {
        let fusion = Fusion {
            position: 0,
            pending: None,
            absorbed: Vec::new(),
            squeezed: Vec::new(),
            saved_state: None,
        };
        assert(fusion.absorbed() =~= Seq::<(nat, nat)>::empty());
        assert(fusion.squeezed() =~= Seq::<nat>::empty());
        (fusion, Action::Compute(Round::Preamble))
    }

    /// The step under way.
    pub fn current(&self) -> (r: Step)
        requires
            self.well_formed(),
        ensures
            r == schedule()[self.position() as int],
    {
        step_at(self.position)
    }

    /// The challenges that feed the round under way, each by its name, if
    /// the step under way computes a round. Every one of them has been
    /// squeezed by then.
    pub fn feed(&self) -> (r: Option<Feed>)
        requires
            self.well_formed(),
        ensures
            match schedule()[self.position() as int] {
                Step::Compute(round) => {
                    &&& r matches Some(feed)
                    &&& feed.feeds(round, self.squeezed())
                    &&& forall|challenge: Challenge|
                        uses(round, challenge) ==> challenge_index(challenge)
                            < self.squeezed().len()
                },
                _ => r is None,
            },
    {
        let step = step_at(self.position);
        proof {
            lemma_position_of(self.position as int);
            match step {
                Step::Compute(round) => {
                    lemma_positions(round, Challenge::W);
                },
                _ => {},
            }
        }
        let s = &self.squeezed;
        let feed = match step {
            Step::Compute(round) => match round {
                Round::Preamble => Feed::Preamble,
                Round::SPrime => Feed::SPrime { w: s[0] },
                Round::ErrorM => Feed::ErrorM { w: s[0], y: s[1], z: s[2] },
                Round::ErrorN => Feed::ErrorN { y: s[1], mu: s[3], nu: s[4] },
                Round::AB => Feed::AB { mu_prime: s[5], nu_prime: s[6] },
                Round::Query => Feed::Query { w: s[0], x: s[7], y: s[1], z: s[2] },
                Round::F => Feed::F { w: s[0], y: s[1], z: s[2], x: s[7], alpha: s[8] },
                Round::Eval => Feed::Eval { u: s[9] },
                Round::P => Feed::P { pre_beta: s[10], u: s[9] },
                Round::InternalCircuits => Feed::InternalCircuits(
                    Challenges {
                        w: s[0],
                        y: s[1],
                        z: s[2],
                        mu: s[3],
                        nu: s[4],
                        mu_prime: s[5],
                        nu_prime: s[6],
                        x: s[7],
                        alpha: s[8],
                        u: s[9],
                        pre_beta: s[10],
                    },
                ),
            },
            _ => {
                return None;
            },
        };
        proof {
            let round = feed.round();
            assert forall|challenge: Challenge|
                #[trigger] feed.carries(challenge) == if uses(round, challenge) {
                    Some(self.squeezed()[challenge_index(challenge)])
                } else {
                    None
                } by {
                match challenge {
                    Challenge::W => {},
                    Challenge::Y => {},
                    Challenge::Z => {},
                    Challenge::Mu => {},
                    Challenge::Nu => {},
                    Challenge::MuPrime => {},
                    Challenge::NuPrime => {},
                    Challenge::X => {},
                    Challenge::Alpha => {},
                    Challenge::U => {},
                    Challenge::PreBeta => {},
                }
            }
        }
        Some(feed)
    }

    /// Whether `next` and `action` are the state and the answer that
    /// follow from this state and the event: the event is what the step
    /// under way waits for; the state moves on by one step and takes up
    /// what the event brought; the answer is what the next step asks for.
    pub open spec fn advanced(&self, event: Event, next: Fusion, action: Action) -> bool {
        &&& awaited(schedule()[self.position() as int], event)
        &&& next.well_formed()
        &&& next.position() == self.position() + 1
        &&& next.absorbed() == match event {
            Event::Absorbed => self.absorbed().push(self.pending().unwrap()),
            _ => self.absorbed(),
        }
        &&& next.squeezed() == match event {
            Event::Squeezed(s) => self.squeezed().push(s@),
            _ => self.squeezed(),
        }
        &&& next.saved_state() == match event {
            Event::StateSaved(s) => Some(values(s@)),
            _ => self.saved_state(),
        }
        &&& next.pending() == match event {
            Event::Committed(p) => Some(p@),
            _ => None,
        }
        &&& action_view(action) == asked(schedule()[next.position() as int], next)
    }
}

impl Application {
    /// One move of a fusion: takes the state of the fusion and what has
    /// just happened, and answers with the state after it and what is to
    /// happen now. The caller carries out what is asked, by the rounds of
    /// this application, the arithmetizer or the transcript, and reports
    /// back. A fusion begins with [`Fusion::start`] and ends when the
    /// answer is [`Action::Finish`]. Where what was asked for fails, the
    /// caller reports the failure, and the fusion ends with that error,
    /// unchanged; any other event that the step under way does not wait
    /// for ends it with the error of an event out of turn. Either way the
    /// state is given up: no later round is asked for, and no proof is
    /// made.
    pub fn fuse(&self, state: Fusion, event: Event) -> (r: Result<(Fusion, Action), Error>)
        requires
            state.well_formed(),
        ensures
            match r {
                Ok((next, action)) => state.advanced(event, next, action),
                Err(e) => {
                    &&& !awaited(schedule()[state.position() as int], event)
                    &&& e == ending(event)
                },
            },
    {
        match &event {
            Event::Failed(e) => {
                return Err(*e);
            },
            _ => {},
        }
        let step = step_at(state.position);
        let ghost before = state;
        let Fusion { position, pending, absorbed, squeezed, saved_state } = state;
        let mut absorbed = absorbed;
        let mut squeezed = squeezed;
        let mut saved_state = saved_state;
        let mut new_pending: Option<NestedPoint> = None;
        proof {
            lemma_counts_follow_schedule(position as int);
        }
        match (step, event) {
            (Step::Compute(round), Event::Committed(point)) => {
                match round {
                    Round::P => {
                        return Err(Error::UnexpectedEvent);
                    },
                    Round::InternalCircuits => {
                        return Err(Error::UnexpectedEvent);
                    },
                    _ => {},
                }
                new_pending = Some(point);
            },
            (Step::Compute(round), Event::Computed) => {
                match round {
                    Round::P => {},
                    Round::InternalCircuits => {},
                    _ => {
                        return Err(Error::UnexpectedEvent);
                    },
                }
            },
            (Step::Absorb(round), Event::Absorbed) => {
                match pending {
                    Some(point) => {
                        absorbed.push(point);
                        assert(point_views(absorbed@) =~= before.absorbed().push(point@));
                    },
                    None => {},
                }
            },
            (Step::Squeeze(challenge), Event::Squeezed(value)) => {
                squeezed.push(value);
                assert(values(squeezed@) =~= before.squeezed().push(value@));
            },
            (Step::SaveState, Event::StateSaved(state)) => {
                saved_state = Some(state);
            },
            _ => {
                return Err(Error::UnexpectedEvent);
            },
        }
        let next_position = position + 1;
        let next_step = step_at(next_position);
        let action = match next_step {
            Step::Compute(round) => Action::Compute(round),
            Step::Absorb(round) => match new_pending {
                Some(point) => Action::Absorb(point),
                None => Action::SaveState,
            },
            Step::Squeeze(challenge) => Action::Squeeze(challenge),
            Step::SaveState => Action::SaveState,
            Step::Finish => {
                assert(squeezed@.len() == 11);
                let challenges = Challenges {
                    w: squeezed[0],
                    y: squeezed[1],
                    z: squeezed[2],
                    mu: squeezed[3],
                    nu: squeezed[4],
                    mu_prime: squeezed[5],
                    nu_prime: squeezed[6],
                    x: squeezed[7],
                    alpha: squeezed[8],
                    u: squeezed[9],
                    pre_beta: squeezed[10],
                };
                assert(values(squeezed@) =~= seq![
                    challenges.w@,
                    challenges.y@,
                    challenges.z@,
                    challenges.mu@,
                    challenges.nu@,
                    challenges.mu_prime@,
                    challenges.nu_prime@,
                    challenges.x@,
                    challenges.alpha@,
                    challenges.u@,
                    challenges.pre_beta@,
                ]);
                let state = match &saved_state {
                    Some(s) => crate::polynomials::copy_dense(s),
                    None => Vec::new(),
                };
                Action::Finish(challenges, state)
            },
        };
        let next = Fusion {
            position: next_position,
            pending: new_pending,
            absorbed,
            squeezed,
            saved_state,
        };
        Ok((next, action))
    }
}

} // verus!
