use ragu_pcd::curve::Generators;
use ragu_pcd::curve::Point;
use ragu_pcd::error::Error;
use ragu_pcd::field::Scalar;
use ragu_pcd::fold_revdot::Parameters;
use ragu_pcd::fuse::schedule::step_at;
use ragu_pcd::fuse::schedule::Action;
use ragu_pcd::fuse::schedule::Challenge;
use ragu_pcd::fuse::schedule::Event;
use ragu_pcd::fuse::schedule::Feed;
use ragu_pcd::fuse::schedule::Fusion;
use ragu_pcd::fuse::schedule::Round;
use ragu_pcd::fuse::schedule::Step;
use ragu_pcd::fuse::schedule::NUM_STEPS;
use ragu_pcd::fuse::Application;
use ragu_pcd::nested::NestedGenerators;
use ragu_pcd::nested::NestedPoint;
use ragu_pcd::pcd::Challenges;
use ragu_pcd::polynomials::Rank;

/// The smallest application: the schedule is the same for all.
fn application() -> Application {
    let rank = Rank::new(2).expect("four coefficients");
    let g = vec![Point::identity(); 4];
    let generators = Generators::new(g, Point::identity());
    let nested = NestedGenerators::new(Vec::new(), NestedPoint::identity()).expect("on the curve");
    let params = Parameters::new(1, 1).expect("one claim");
    Application::new(rank, 1, generators, nested, params, 0).expect("enough generators")
}

fn fuse(state: Fusion, event: Event) -> Result<(Fusion, Action), Error> {
    application().fuse(state, event)
}

fn point(index: u64) -> NestedPoint {
    NestedPoint::new(Scalar::from_u64(index), Scalar::from_u64(index + 1000))
}

/// Runs a whole fusion with made-up commitments and challenges and returns
/// what was asked for, step by step.
fn run() -> (Vec<String>, Challenges, Vec<Scalar>) {
    let (mut state, mut action) = Fusion::start();
    let mut log = Vec::new();
    let mut committed = 0u64;
    let mut squeezed = 0u64;
    loop {
        let event = match &action {
            Action::Compute(round) => {
                log.push(format!("compute {:?}", round));
                match round {
                    Round::P | Round::InternalCircuits => Event::Computed,
                    _ => {
                        committed += 1;
                        Event::Committed(point(committed))
                    }
                }
            }
            Action::Absorb(p) => {
                assert!(p.equals(&point(committed)));
                log.push(format!("absorb {}", committed));
                Event::Absorbed
            }
            Action::Squeeze(challenge) => {
                log.push(format!("squeeze {:?}", challenge));
                squeezed += 1;
                Event::Squeezed(Scalar::from_u64(100 + squeezed))
            }
            Action::SaveState => {
                log.push(format!("save"));
                Event::StateSaved(vec![Scalar::from_u64(77), Scalar::from_u64(78)])
            }
            Action::Finish(challenges, saved) => {
                log.push(format!("finish"));
                return (log, *challenges, saved.clone());
            }
        };
        let (next, next_action) = fuse(state, event).expect("the event that was asked for");
        state = next;
        action = next_action;
    }
}

#[test]
fn a_fusion_runs_its_ten_rounds_in_order() {
    let (log, challenges, saved) = run();
    let expected = [
        "compute Preamble",
        "absorb 1",
        "squeeze W",
        "compute SPrime",
        "absorb 2",
        "squeeze Y",
        "squeeze Z",
        "compute ErrorM",
        "absorb 3",
        "save",
        "squeeze Mu",
        "squeeze Nu",
        "compute ErrorN",
        "absorb 4",
        "squeeze MuPrime",
        "squeeze NuPrime",
        "compute AB",
        "absorb 5",
        "squeeze X",
        "compute Query",
        "absorb 6",
        "squeeze Alpha",
        "compute F",
        "absorb 7",
        "squeeze U",
        "compute Eval",
        "absorb 8",
        "squeeze PreBeta",
        "compute P",
        "compute InternalCircuits",
        "finish",
    ];
    assert_eq!(log.len(), NUM_STEPS);
    for (got, want) in log.iter().zip(expected.iter()) {
        assert_eq!(got, want);
    }
    // The challenges come out in the order in which they were squeezed.
    let values = [
        challenges.w,
        challenges.y,
        challenges.z,
        challenges.mu,
        challenges.nu,
        challenges.mu_prime,
        challenges.nu_prime,
        challenges.x,
        challenges.alpha,
        challenges.u,
        challenges.pre_beta,
    ];
    for (i, value) in values.iter().enumerate() {
        assert!(value.equals(&Scalar::from_u64(101 + i as u64)));
    }
    assert_eq!(saved.len(), 2);
    assert!(saved[0].equals(&Scalar::from_u64(77)));
    assert!(saved[1].equals(&Scalar::from_u64(78)));
}

#[test]
fn a_fusion_is_a_function_of_what_it_is_told() {
    let (first_log, first, _) = run();
    let (second_log, second, _) = run();
    assert_eq!(first_log, second_log);
    assert!(first.pre_beta.equals(&second.pre_beta));
    assert!(first.w.equals(&second.w));
}

#[test]
fn an_event_that_is_not_awaited_ends_the_fusion() {
    // A challenge before anything was committed to.
    let (state, _) = Fusion::start();
    match fuse(state, Event::Squeezed(Scalar::from_u64(1))) {
        Err(e) => assert_eq!(e, Error::UnexpectedEvent),
        Ok(_) => panic!("nothing has been absorbed yet"),
    }
    // A second commitment before the first was absorbed.
    let (state, _) = Fusion::start();
    let (state, action) = fuse(state, Event::Committed(point(1))).unwrap();
    assert!(matches!(action, Action::Absorb(_)));
    match fuse(state, Event::Committed(point(2))) {
        Err(e) => assert_eq!(e, Error::UnexpectedEvent),
        Ok(_) => panic!("the first commitment has not been absorbed"),
    }
    // The first round has a commitment to report.
    let (state, _) = Fusion::start();
    match fuse(state, Event::Computed) {
        Err(e) => assert_eq!(e, Error::UnexpectedEvent),
        Ok(_) => panic!("the preamble is committed to"),
    }
    // The state of the transcript is not asked for before its time.
    let (state, _) = Fusion::start();
    match fuse(state, Event::StateSaved(vec![])) {
        Err(e) => assert_eq!(e, Error::UnexpectedEvent),
        Ok(_) => panic!("the state is copied after the third round"),
    }
}

#[test]
fn a_challenge_is_squeezed_only_after_its_commitment_was_absorbed() {
    let (state, _) = Fusion::start();
    let (state, _) = fuse(state, Event::Committed(point(1))).unwrap();
    assert_eq!(state.current(), Step::Absorb(Round::Preamble));
    let (state, action) = fuse(state, Event::Absorbed).unwrap();
    assert!(matches!(action, Action::Squeeze(Challenge::W)));
    assert_eq!(state.current(), Step::Squeeze(Challenge::W));
    let (state, action) = fuse(state, Event::Squeezed(Scalar::from_u64(5))).unwrap();
    assert!(matches!(action, Action::Compute(Round::SPrime)));
    assert_eq!(state.current(), Step::Compute(Round::SPrime));
}

#[test]
fn the_schedule_has_its_steps_where_the_table_says() {
    assert_eq!(step_at(0), Step::Compute(Round::Preamble));
    assert_eq!(step_at(8), Step::Absorb(Round::ErrorM));
    assert_eq!(step_at(9), Step::SaveState);
    assert_eq!(step_at(10), Step::Squeeze(Challenge::Mu));
    assert_eq!(step_at(27), Step::Squeeze(Challenge::PreBeta));
    assert_eq!(step_at(28), Step::Compute(Round::P));
    assert_eq!(step_at(30), Step::Finish);
}

#[test]
fn a_failure_ends_the_fusion_with_its_error() {
    // At the start, where a round is under way.
    let (state, _) = Fusion::start();
    let failure = Error::MultiplicationBoundExceeded(32);
    assert_eq!(fuse(state, Event::Failed(failure)).err(), Some(failure));

    // While a commitment waits to be absorbed.
    let (state, _) = Fusion::start();
    let (state, action) = fuse(state, Event::Committed(point(1))).expect("awaited");
    assert!(matches!(action, Action::Absorb(_)));
    let failure = Error::Arithmetization(7);
    assert_eq!(fuse(state, Event::Failed(failure)).err(), Some(failure));

    // While a challenge is asked for: the error is handed on as it is,
    // whichever it is.
    let (state, _) = Fusion::start();
    let (state, _) = fuse(state, Event::Committed(point(1))).expect("awaited");
    let (state, action) = fuse(state, Event::Absorbed).expect("awaited");
    assert!(matches!(action, Action::Squeeze(Challenge::W)));
    assert_eq!(
        fuse(state, Event::Failed(Error::DomainPointInvalid)).err(),
        Some(Error::DomainPointInvalid)
    );

    // An event out of turn is no failure of a round.
    let (state, _) = Fusion::start();
    assert_eq!(fuse(state, Event::Absorbed).err(), Some(Error::UnexpectedEvent));
}

#[test]
fn each_round_is_fed_the_challenges_it_uses_by_name() {
    // Challenge number k, in the order of squeezing, has the value 100 + k.
    let is = |s: &Scalar, k: u64| s.equals(&Scalar::from_u64(100 + k));
    let (mut state, mut action) = Fusion::start();
    let mut committed = 0u64;
    let mut squeezed = 0u64;
    let mut rounds = 0;
    loop {
        let feed = state.feed();
        let event = match &action {
            Action::Compute(round) => {
                rounds += 1;
                match feed.expect("a round is under way") {
                    Feed::Preamble => assert_eq!(*round, Round::Preamble),
                    Feed::SPrime { w } => {
                        assert_eq!(*round, Round::SPrime);
                        assert!(is(&w, 1));
                    }
                    Feed::ErrorM { w, y, z } => {
                        assert_eq!(*round, Round::ErrorM);
                        assert!(is(&w, 1) && is(&y, 2) && is(&z, 3));
                    }
                    Feed::ErrorN { y, mu, nu } => {
                        assert_eq!(*round, Round::ErrorN);
                        assert!(is(&y, 2) && is(&mu, 4) && is(&nu, 5));
                    }
                    Feed::AB { mu_prime, nu_prime } => {
                        assert_eq!(*round, Round::AB);
                        assert!(is(&mu_prime, 6) && is(&nu_prime, 7));
                    }
                    Feed::Query { w, x, y, z } => {
                        assert_eq!(*round, Round::Query);
                        assert!(is(&w, 1) && is(&x, 8) && is(&y, 2) && is(&z, 3));
                    }
                    Feed::F { w, y, z, x, alpha } => {
                        assert_eq!(*round, Round::F);
                        assert!(is(&w, 1) && is(&y, 2) && is(&z, 3) && is(&x, 8));
                        assert!(is(&alpha, 9));
                    }
                    Feed::Eval { u } => {
                        assert_eq!(*round, Round::Eval);
                        assert!(is(&u, 10));
                    }
                    Feed::P { pre_beta, u } => {
                        assert_eq!(*round, Round::P);
                        assert!(is(&pre_beta, 11) && is(&u, 10));
                    }
                    Feed::InternalCircuits(c) => {
                        assert_eq!(*round, Round::InternalCircuits);
                        assert!(is(&c.w, 1) && is(&c.y, 2) && is(&c.z, 3) && is(&c.mu, 4));
                        assert!(is(&c.nu, 5) && is(&c.mu_prime, 6) && is(&c.nu_prime, 7));
                        assert!(is(&c.x, 8) && is(&c.alpha, 9) && is(&c.u, 10));
                        assert!(is(&c.pre_beta, 11));
                    }
                }
                match round {
                    Round::P | Round::InternalCircuits => Event::Computed,
                    _ => {
                        committed += 1;
                        Event::Committed(point(committed))
                    }
                }
            }
            Action::Absorb(_) => {
                assert!(feed.is_none());
                Event::Absorbed
            }
            Action::Squeeze(_) => {
                assert!(feed.is_none());
                squeezed += 1;
                Event::Squeezed(Scalar::from_u64(100 + squeezed))
            }
            Action::SaveState => {
                assert!(feed.is_none());
                Event::StateSaved(vec![Scalar::from_u64(77)])
            }
            Action::Finish(_, _) => {
                assert!(feed.is_none());
                break;
            }
        };
        let (next, next_action) = fuse(state, event).expect("the event that was asked for");
        state = next;
        action = next_action;
    }
    assert_eq!(rounds, 10);
}
