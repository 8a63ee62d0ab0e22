use ff::PrimeField;
use pasta_curves::arithmetic::CurveAffine;
use pasta_curves::arithmetic::CurveExt;
use group::Curve;
use ragu_pcd::circuits::stages::error_m;
use ragu_pcd::circuits::stages::error_n;
use ragu_pcd::circuits::stages::eval;
use ragu_pcd::circuits::stages::query;
use ragu_pcd::circuits::unified::Instance;
use ragu_pcd::curve::Generators;
use ragu_pcd::curve::Point;
use ragu_pcd::error::Error;
use ragu_pcd::field::Scalar;
use ragu_pcd::fold_revdot::compute_c;
use ragu_pcd::fold_revdot::pad_claims;
use ragu_pcd::fold_revdot::Parameters;
use ragu_pcd::fuse::circuits::InternalTraces;
use ragu_pcd::fuse::schedule::Action;
use ragu_pcd::fuse::schedule::Event;
use ragu_pcd::fuse::schedule::Feed;
use ragu_pcd::fuse::schedule::Fusion;
use ragu_pcd::fuse::schedule::Round;
use ragu_pcd::fuse::source::FuseProofSource;
use ragu_pcd::fuse::source::RxComponent;
use ragu_pcd::fuse::Application;
use ragu_pcd::nested::NestedCommitted;
use ragu_pcd::nested::NestedGenerators;
use ragu_pcd::nested::NestedPoint;
use ragu_pcd::nested::NestedPolynomial;
use ragu_pcd::nested::NestedScalar;
use ragu_pcd::pcd::ABProof;
use ragu_pcd::pcd::Challenges;
use ragu_pcd::pcd::CircuitIndex;
use ragu_pcd::pcd::CommittedStructured;
use ragu_pcd::pcd::ErrorMProof;
use ragu_pcd::pcd::ErrorNProof;
use ragu_pcd::pcd::EvalProof;
use ragu_pcd::pcd::FProof;
use ragu_pcd::pcd::PProof;
use ragu_pcd::pcd::PreambleProof;
use ragu_pcd::pcd::Proof;
use ragu_pcd::pcd::QueryProof;
use ragu_pcd::pcd::SPrimeProof;
use ragu_pcd::polynomials::committed::Committable;
use ragu_pcd::polynomials::staging::tz;
use ragu_pcd::polynomials::staging::StagingCircuit;
use ragu_pcd::polynomials::structured;
use ragu_pcd::polynomials::unstructured;
use ragu_pcd::polynomials::Rank;
use ragu_pcd::rx::Evaluator;
use ragu_pcd::rx::Key;
use ragu_pcd::rx::Trace;
use rand::rngs::StdRng;
use rand::SeedableRng;

const HEADER_SIZE: usize = 4;

fn rank() -> Rank {
    Rank::new(7).expect("a rank of 32 gates")
}

fn hashed(index: u64) -> Point {
    let hasher = pasta_curves::vesta::Point::hash_to_curve("ragu_pcd:tests");
    let affine = hasher(&index.to_le_bytes()).to_affine();
    let c: pasta_curves::arithmetic::Coordinates<pasta_curves::vesta::Affine> =
        Option::from(affine.coordinates()).expect("not the point at infinity");
    Point::from_xy(c.x().to_repr(), c.y().to_repr()).expect("a point of the curve")
}

fn application() -> Application {
    let g: Vec<Point> = (0..128u64).map(hashed).collect();
    let generators = Generators::new(g, hashed(128));
    let params = Parameters::new(2, 2).expect("two groups of two");
    Application::new(rank(), HEADER_SIZE, generators, nested_generators(), params, 1)
        .expect("enough generators")
}

fn nested_hashed(index: u64) -> NestedPoint {
    let hasher = pasta_curves::pallas::Point::hash_to_curve("ragu_pcd:tests:nested");
    let affine = hasher(&index.to_le_bytes()).to_affine();
    let c: pasta_curves::arithmetic::Coordinates<pasta_curves::pallas::Affine> =
        Option::from(affine.coordinates()).expect("not the point at infinity");
    NestedPoint::new(
        Scalar::from_bytes(c.x().to_repr()).expect("a coordinate of Pallas"),
        Scalar::from_bytes(c.y().to_repr()).expect("a coordinate of Pallas"),
    )
}

fn nested_generators_of(count: u64) -> NestedGenerators {
    let g: Vec<NestedPoint> = (0..count).map(nested_hashed).collect();
    NestedGenerators::new(g, nested_hashed(count)).expect("points of the nested curve")
}

fn nested_generators() -> NestedGenerators {
    nested_generators_of(128)
}

/// Stands for a stage of the nested curve: a polynomial whose coefficients
/// are the coordinates of the points it binds.
fn nested_poly(points: &[Point]) -> NestedPolynomial {
    let mut coeffs = Vec::new();
    for point in points {
        coeffs.push(NestedScalar { bytes: point.x() });
        coeffs.push(NestedScalar { bytes: point.y() });
    }
    NestedPolynomial { coeffs }
}

/// The polynomial that binds the points, committed to on the nested curve.
fn nested_under(generators: &NestedGenerators, points: &[Point]) -> NestedCommitted {
    nested_poly(points)
        .commit_with_blind(generators, NestedScalar { bytes: [1u8; 32] })
        .expect("few canonical coefficients")
}

/// Stands for the transcript.
struct Transcript {
    state: Scalar,
}

impl Transcript {
    fn absorb(&mut self, point: &NestedPoint) {
        self.state = self.state.add(&point.x).pow(5).add(&point.y);
    }

    fn squeeze(&mut self) -> Scalar {
        self.state = self.state.pow(5).add(&Scalar::from_u64(7));
        self.state
    }

    fn save_state(&self) -> Vec<Scalar> {
        vec![self.state]
    }
}

/// Stands for the registry: a polynomial that depends on two points.
fn registry(a: &Scalar, b: &Scalar) -> unstructured::Polynomial {
    let coeffs: Vec<Scalar> = (0..8u64).map(|i| a.pow(i).add(&b.pow(i + 1))).collect();
    unstructured::Polynomial::from_coeffs(rank(), coeffs).expect("few coefficients")
}

fn registry_structured(a: &Scalar, b: &Scalar) -> structured::Polynomial {
    StagingCircuit::root(4)
        .rx(&vec![*a, *b, a.mul(b), a.add(b)], rank())
        .expect("two gates")
}

/// Stands for a checking circuit: a trace of a few gates.
fn trace(seed: &Scalar, gates: usize) -> Trace {
    let mut dr = Evaluator::new();
    let mut value = *seed;
    for _ in 0..gates {
        let square = value.mul(&value);
        dr.mul(value, value, square);
        value = square.add(&Scalar::one());
    }
    dr.finish()
}

/// Stands for the arithmetizer of the checking circuits: traces that depend
/// on the public inputs they are recorded for.
fn traces_for(instance: &Instance) -> InternalTraces {
    InternalTraces {
        instance: *instance,
        hashes_1: trace(&instance.w, 4),
        hashes_2: trace(&instance.x, 4),
        partial_collapse: trace(&instance.mu, 5),
        full_collapse: trace(&instance.mu_prime, 5),
        compute_v: trace(&instance.v, 6),
    }
}

/// The claims of a fusion: the polynomials of the two proofs against the
/// same polynomials dilated.
fn claims(
    left: &Proof,
    right: &Proof,
    z: &Scalar,
    params: Parameters,
) -> (Vec<structured::Polynomial>, Vec<structured::Polynomial>) {
    let source = FuseProofSource { left, right };
    let mut a = Vec::new();
    let mut b = Vec::new();
    for (l, r) in [source.rx(RxComponent::Application), source.rx(RxComponent::Preamble)] {
        for poly in [l, r] {
            a.push(poly.clone());
            let mut rhs = poly.clone();
            rhs.dilate(z);
            rhs.add_assign(&tz(rank(), z));
            b.push(rhs);
        }
    }
    a.truncate(3);
    b.truncate(3);
    (pad_claims(a, params, rank()).unwrap(), pad_claims(b, params, rank()).unwrap())
}

/// One fusion from beginning to end, everything from outside replaced by a
/// stand-in, and the proof put together only if it holds together.
fn fuse(app: &Application, left: &Proof, right: &Proof, seed: u64) -> Result<Proof, Error> {
    reassembled(app, &rounds(app, left, right, seed)?)
}

/// The rounds of one fusion, everything from outside replaced by a
/// stand-in; what they made is handed out as it is.
fn rounds(app: &Application, left: &Proof, right: &Proof, seed: u64) -> Result<Proof, Error> {
    let mut rng = StdRng::seed_from_u64(seed);
    let mut transcript = Transcript { state: Scalar::zero() };
    let params = app.params();
    let key = Key::trivial();

    let application = app.application_proof(
        &mut rng,
        &key,
        CircuitIndex::new(1),
        left.application.left_header.clone(),
        right.application.right_header.clone(),
        &trace(&Scalar::from_u64(seed + 2), 3),
    )?;
    let preamble_stage = StagingCircuit::root(2 * HEADER_SIZE);

    let mut preamble = None;
    let mut s_prime: Option<SPrimeProof> = None;
    let mut error_m_proof = None;
    let mut error_n_proof = None;
    let mut ab_proof = None;
    let mut query_proof = None;
    let mut f_proof = None;
    let mut eval_proof = None;
    let mut p_proof = None;
    let mut circuits = None;
    let mut saved: Vec<Scalar> = Vec::new();
    let mut first_layer_terms = None;
    let mut first_layer_claims = None;
    let mut second_layer = None;

    let (mut state, mut action) = Fusion::start();
    loop {
        let event = match (action, state.feed()) {
            (Action::Compute(_), Some(Feed::Preamble)) => {
                let mut values = left.application.left_header.clone();
                values.extend(right.application.right_header.iter().cloned());
                let rx = preamble_stage.rx(&values, rank())?;
                let made = app.preamble_round(&mut rng, &rx);
                assert!(made.points[0].equals(&made.native_rx.commitment()));
                let nested_rx = nested_under(app.nested_generators(), &made.points);
                let commitment = nested_rx.commitment;
                preamble = Some(PreambleProof { native_rx: made.native_rx, nested_rx });
                Event::Committed(commitment)
            }
            (Action::Compute(_), Some(Feed::SPrime { w })) => {
                let (x0, x1) = app.s_prime_points(left, right);
                let made = app.s_prime_round(&mut rng, &registry(&w, &x0), &registry(&w, &x1));
                assert!(made.points[0].equals(&made.registry_wx0.commitment()));
                assert!(made.points[1].equals(&made.registry_wx1.commitment()));
                let nested_s_prime_rx = nested_under(app.nested_generators(), &made.points);
                let commitment = nested_s_prime_rx.commitment;
                s_prime = Some(SPrimeProof {
                    registry_wx0: made.registry_wx0,
                    registry_wx1: made.registry_wx1,
                    nested_s_prime_rx,
                });
                Event::Committed(commitment)
            }
            (Action::Compute(_), Some(Feed::ErrorM { w, y, z })) => {
                let (a, b) = claims(left, right, &z, params);
                let bound = s_prime.as_ref().unwrap().nested_s_prime_rx.commitment;
                let wy = registry_structured(&w, &y);
                let made = app.error_m_round(&mut rng, &z, &bound, &preamble_stage, &wy, &a, &b)?;
                // The stage is the one that the stage's own function lays
                // out for the same witness.
                let witness = error_m::Witness {
                    z,
                    nested_s_doubleprime_commitment: bound,
                    error_terms: made.layer.error_terms.clone(),
                };
                let expected = error_m::Stage::rx(&witness, params, &preamble_stage, rank())?;
                assert_eq!(made.native_rx.poly().coefficients().len(), 128);
                assert!(same_coefficients(
                    &made.native_rx.poly().coefficients(),
                    &expected.coefficients()
                ));
                assert!(made.points[0].equals(&made.native_rx.commitment()));
                assert!(made.points[1].equals(&made.layer.registry_wy.commitment()));
                let nested_rx = nested_under(app.nested_generators(), &made.points);
                let commitment = nested_rx.commitment;
                first_layer_terms = Some(made.layer.error_terms);
                first_layer_claims = Some((a, b));
                error_m_proof = Some(ErrorMProof {
                    registry_wy: made.layer.registry_wy,
                    native_rx: made.native_rx,
                    nested_rx,
                });
                Event::Committed(commitment)
            }
            (Action::Compute(_), Some(Feed::ErrorN { y: _, mu, nu })) => {
                let (a, b) = first_layer_claims.as_ref().unwrap();
                let ky: Vec<Vec<Scalar>> = (0..params.n())
                    .map(|g| {
                        (0..params.m())
                            .map(|i| a[g * params.m() + i].revdot(&b[g * params.m() + i]))
                            .collect()
                    })
                    .collect();
                let made = app.error_n_round(
                    &mut rng,
                    &preamble_stage,
                    a,
                    b,
                    first_layer_terms.as_ref().unwrap(),
                    &ky,
                    &mu,
                    &nu,
                    saved.clone(),
                )?;
                let parent = StagingCircuit::after(&preamble_stage, error_m::Stage::values(params))
                    .expect("few gates");
                let expected = error_n::Stage::rx(&made.layer.witness, params, &parent, rank())?;
                assert!(same_coefficients(
                    &made.native_rx.poly().coefficients(),
                    &expected.coefficients()
                ));
                let nested_rx = nested_under(app.nested_generators(), &made.points);
                let commitment = nested_rx.commitment;
                error_n_proof = Some(ErrorNProof { native_rx: made.native_rx, nested_rx });
                second_layer = Some(made.layer);
                Event::Committed(commitment)
            }
            (Action::Compute(_), Some(Feed::AB { mu_prime, nu_prime })) => {
                let layer = second_layer.as_ref().unwrap();
                let made = app.ab_round(&mut rng, &layer.a, &layer.b, &mu_prime, &nu_prime)?;
                let folded = made.folded;
                // The folded claim is the one that the two layers of error
                // terms and collapsed values imply.
                let c = compute_c(
                    &mu_prime,
                    &nu_prime,
                    &layer.witness.error_terms,
                    &layer.witness.collapsed,
                )?;
                assert!(folded.c.equals(&c));
                assert!(made.points[0].equals(&folded.a.commitment()));
                assert!(made.points[1].equals(&folded.b.commitment()));
                let nested_rx = nested_under(app.nested_generators(), &made.points);
                let commitment = nested_rx.commitment;
                ab_proof = Some(ABProof { a: folded.a, b: folded.b, c: folded.c, nested_rx });
                Event::Committed(commitment)
            }
            (Action::Compute(_), Some(Feed::Query { w: _, x, y, z: _ })) => {
                let registry_xy = app.poly_round(&mut rng, &registry(&x, &y));
                let bound = nested_under(app.nested_generators(), &registry_xy.points).commitment;
                let queries: Vec<Scalar> =
                    (0..5).map(|i| registry_xy.poly.poly().eval(&x.pow(i))).collect();
                let made = app.query_round(
                    &mut rng,
                    &x,
                    &bound,
                    &preamble_stage,
                    &registry_xy.poly,
                    queries,
                )?;
                assert!(made.points[0].equals(&made.native_rx.commitment()));
                assert!(made.points[1].equals(&registry_xy.poly.commitment()));
                let nested_rx = nested_under(app.nested_generators(), &made.points);
                let commitment = nested_rx.commitment;
                query_proof = Some(QueryProof {
                    registry_xy: registry_xy.poly,
                    native_rx: made.native_rx,
                    nested_rx,
                });
                Event::Committed(commitment)
            }
            (Action::Compute(_), Some(Feed::F { w: _, y: _, z: _, x: _, alpha })) => {
                let made = app.poly_round(&mut rng, &registry(&alpha, &alpha));
                let nested_rx = nested_under(app.nested_generators(), &made.points);
                let commitment = nested_rx.commitment;
                f_proof = Some(FProof { poly: made.poly, nested_rx });
                Event::Committed(commitment)
            }
            (Action::Compute(_), Some(Feed::Eval { u })) => {
                let made = app.eval_round(
                    &mut rng,
                    &u,
                    &preamble_stage,
                    left,
                    right,
                    s_prime.as_ref().unwrap(),
                    error_m_proof.as_ref().unwrap(),
                    ab_proof.as_ref().unwrap(),
                    query_proof.as_ref().unwrap(),
                )?;
                let witness = eval::Witness {
                    u,
                    left,
                    right,
                    s_prime: s_prime.as_ref().unwrap(),
                    error_m: error_m_proof.as_ref().unwrap(),
                    ab: ab_proof.as_ref().unwrap(),
                    query: query_proof.as_ref().unwrap(),
                };
                let parent = StagingCircuit::after(&preamble_stage, query::Stage::values())
                    .expect("few gates");
                let expected = eval::Stage::rx(&witness, &parent, rank())?;
                assert!(same_coefficients(
                    &made.native_rx.poly().coefficients(),
                    &expected.coefficients()
                ));
                let nested_rx = nested_under(app.nested_generators(), &made.points);
                let commitment = nested_rx.commitment;
                eval_proof = Some(EvalProof { native_rx: made.native_rx, nested_rx });
                Event::Committed(commitment)
            }
            (Action::Compute(_), Some(Feed::P { pre_beta, u })) => {
                let accumulated = app.compute_p(
                    &pre_beta,
                    &u,
                    left,
                    right,
                    s_prime.as_ref().unwrap(),
                    error_m_proof.as_ref().unwrap(),
                    ab_proof.as_ref().unwrap(),
                    query_proof.as_ref().unwrap(),
                    f_proof.as_ref().unwrap(),
                );
                let points_rx = nested_poly(&accumulated.points);
                p_proof = Some(PProof {
                    poly: accumulated.poly,
                    v: accumulated.v,
                    endoscalar_rx: NestedPolynomial { coeffs: vec![] },
                    points_rx,
                    step_rxs: vec![],
                });
                Event::Computed
            }
            (Action::Compute(_), Some(Feed::InternalCircuits(challenges))) => {
                let instance = app.unified_instance(
                    preamble.as_ref().unwrap(),
                    s_prime.as_ref().unwrap(),
                    error_n_proof.as_ref().unwrap(),
                    error_m_proof.as_ref().unwrap(),
                    ab_proof.as_ref().unwrap(),
                    query_proof.as_ref().unwrap(),
                    f_proof.as_ref().unwrap(),
                    eval_proof.as_ref().unwrap(),
                    p_proof.as_ref().unwrap(),
                    &challenges,
                );
                let traces = traces_for(&instance);
                circuits = Some(app.compute_internal_circuits(&mut rng, &instance, &traces, &key)?);
                Event::Computed
            }
            (Action::Absorb(point), _) => {
                transcript.absorb(&point);
                Event::Absorbed
            }
            (Action::Squeeze(_), _) => Event::Squeezed(transcript.squeeze()),
            (Action::SaveState, _) => {
                saved = transcript.save_state();
                Event::StateSaved(saved.clone())
            }
            (Action::Finish(challenges, _), _) => {
                return Ok(Proof {
                    application,
                    preamble: preamble.unwrap(),
                    s_prime: s_prime.unwrap(),
                    error_n: error_n_proof.unwrap(),
                    error_m: error_m_proof.unwrap(),
                    ab: ab_proof.unwrap(),
                    query: query_proof.unwrap(),
                    f: f_proof.unwrap(),
                    eval: eval_proof.unwrap(),
                    p: p_proof.unwrap(),
                    challenges,
                    circuits: circuits.unwrap(),
                });
            }
            (Action::Compute(_), None) => panic!("a round is fed"),
        };
        let (next, next_action) = app.fuse(state, event)?;
        state = next;
        action = next_action;
    }
}

fn same_coefficients(a: &[Scalar], b: &[Scalar]) -> bool {
    a.len() == b.len() && a.iter().zip(b).all(|(x, y)| x.equals(y))
}

fn base_case(app: &Application) -> Proof {
    app.trivial_proof(0).expect("enough generators on both curves")
}

fn structured_commitments(proof: &Proof) -> Vec<&CommittedStructured> {
    vec![
        &proof.application.rx,
        &proof.preamble.native_rx,
        &proof.error_n.native_rx,
        &proof.error_m.registry_wy,
        &proof.error_m.native_rx,
        &proof.ab.a,
        &proof.ab.b,
        &proof.query.native_rx,
        &proof.eval.native_rx,
        &proof.circuits.hashes_1,
        &proof.circuits.hashes_2,
        &proof.circuits.partial_collapse,
        &proof.circuits.full_collapse,
        &proof.circuits.compute_v,
    ]
}

/// What can be checked of a proof without the circuits: every commitment
/// opens to its polynomial, and the two claimed values are what they claim
/// to be.
fn consistent(app: &Application, proof: &Proof) -> bool {
    let g = app.generators();
    let structured = structured_commitments(proof).into_iter().all(|cp| {
        g.commit(&cp.poly().coefficients(), &cp.blind()).equals(&cp.commitment())
    });
    let unstructured = [
        &proof.s_prime.registry_wx0,
        &proof.s_prime.registry_wx1,
        &proof.query.registry_xy,
        &proof.f.poly,
        &proof.p.poly,
    ]
    .into_iter()
    .all(|cp| g.commit(&cp.poly().coefficients(), &cp.blind()).equals(&cp.commitment()));
    let c = proof.ab.a.poly().revdot(proof.ab.b.poly()).equals(&proof.ab.c);
    let v = proof.p.poly.poly().eval(&proof.challenges.u).equals(&proof.p.v);
    structured && unstructured && c && v
}

fn same(a: &Proof, b: &Proof) -> bool {
    let point = Scalar::from_u64(12345);
    let commitments = structured_commitments(a)
        .into_iter()
        .zip(structured_commitments(b))
        .all(|(x, y)| {
            x.commitment().equals(&y.commitment())
                && x.blind().equals(&y.blind())
                && x.poly().eval(&point).equals(&y.poly().eval(&point))
        });
    commitments
        && a.p.poly.commitment().equals(&b.p.poly.commitment())
        && a.f.poly.commitment().equals(&b.f.poly.commitment())
        && a.p.v.equals(&b.p.v)
        && a.ab.c.equals(&b.ab.c)
        && a.challenges.w.equals(&b.challenges.w)
        && a.challenges.pre_beta.equals(&b.challenges.pre_beta)
        && a.preamble.nested_rx.commitment.equals(&b.preamble.nested_rx.commitment)
        && a.eval.nested_rx.commitment.equals(&b.eval.nested_rx.commitment)
}

fn reassembled(app: &Application, proof: &Proof) -> Result<Proof, Error> {
    let proof = proof.clone();
    app.assemble(
        proof.application,
        proof.preamble,
        proof.s_prime,
        proof.error_n,
        proof.error_m,
        proof.ab,
        proof.query,
        proof.f,
        proof.eval,
        proof.p,
        proof.challenges,
        proof.circuits,
    )
}

#[test]
fn the_base_case_holds_together() {
    let app = application();
    let base = base_case(&app);
    assert!(consistent(&app, &base));
    assert!(app.check(&base));
}

#[test]
fn fusing_the_base_case_with_itself_gives_a_consistent_proof() {
    let app = application();
    let base = base_case(&app);
    let fused = rounds(&app, &base, &base, 1234).expect("the fusion succeeds");
    assert!(consistent(&app, &fused));
    assert!(!fused.challenges.w.is_zero());
    assert!(!fused.p.v.is_zero());
    // The public inputs are gathered from the rounds.
    let instance = Instance::new(
        &fused.preamble,
        &fused.s_prime,
        &fused.error_n,
        &fused.error_m,
        &fused.ab,
        &fused.query,
        &fused.f,
        &fused.eval,
        &fused.p,
        &fused.challenges,
    );
    assert!(instance.c.equals(&fused.ab.c));
    assert!(instance.v.equals(&fused.p.v));
    assert!(instance.nested_ab_commitment.equals(&fused.ab.nested_rx.commitment));
    assert!(instance.alpha.equals(&fused.challenges.alpha));

    // One coefficient of one committed polynomial changed: the proof no
    // longer holds together.
    let mut tampered = fused.clone();
    let mut poly = tampered.ab.a.poly().clone();
    let changed = poly.get(ragu_pcd::polynomials::structured::Wire::A, 1).add(&Scalar::one());
    poly.set(ragu_pcd::polynomials::structured::Wire::A, 1, changed);
    tampered.ab.a = ragu_pcd::polynomials::committed::CommittedPolynomial::new_unchecked(
        poly,
        tampered.ab.a.blind(),
        tampered.ab.a.commitment(),
    );
    assert!(!consistent(&app, &tampered));
    assert!(!app.check(&tampered));
}

#[test]
fn a_proof_is_assembled_only_if_it_holds_together() {
    let app = application();
    let base = base_case(&app);
    let again = reassembled(&app, &base).expect("the parts hold together");
    assert!(same(&base, &again));

    // A claimed value that is not the value of the accumulated polynomial.
    let mut wrong_v = base.clone();
    wrong_v.p.v = wrong_v.p.v.add(&Scalar::one());
    assert_eq!(reassembled(&app, &wrong_v).err(), Some(Error::InconsistentProof));

    // A claimed value that is not the reversed dot product.
    let mut wrong_c = base.clone();
    wrong_c.ab.c = wrong_c.ab.c.add(&Scalar::one());
    assert_eq!(reassembled(&app, &wrong_c).err(), Some(Error::InconsistentProof));

    // A commitment under another blinding factor.
    let mut wrong_blind = base.clone();
    wrong_blind.application.rx =
        ragu_pcd::polynomials::committed::CommittedPolynomial::new_unchecked(
            wrong_blind.application.rx.poly().clone(),
            wrong_blind.application.rx.blind().add(&Scalar::one()),
            wrong_blind.application.rx.commitment(),
        );
    assert_eq!(reassembled(&app, &wrong_blind).err(), Some(Error::InconsistentProof));

    // A header of another size.
    let mut wrong_header = base.clone();
    wrong_header.application.left_header.push(Scalar::zero());
    assert_eq!(reassembled(&app, &wrong_header).err(), Some(Error::InconsistentProof));

    // A polynomial of another rank.
    let mut wrong_rank = base.clone();
    let small = Rank::new(6).expect("a rank of 16 gates");
    wrong_rank.eval.native_rx =
        structured::Polynomial::new(small).commit_with_blind(app.generators(), Scalar::one());
    assert_eq!(reassembled(&app, &wrong_rank).err(), Some(Error::InconsistentProof));
}

#[test]
fn a_claimed_value_belongs_to_its_challenge() {
    let app = application();
    let base = base_case(&app);
    let fused = rounds(&app, &base, &base, 77).expect("the fusion succeeds");
    // Another challenge `u` than the one the value was computed at.
    let mut wrong_u = fused.clone();
    wrong_u.challenges.u = wrong_u.challenges.u.add(&Scalar::one());
    assert!(!app.check(&wrong_u));
    assert_eq!(reassembled(&app, &wrong_u).err(), Some(Error::InconsistentProof));
    assert!(fused.p.poly.poly().eval(&fused.challenges.u).equals(&fused.p.v));
    assert!(fused.ab.a.poly().revdot(fused.ab.b.poly()).equals(&fused.ab.c));
}

#[test]
fn a_committed_polynomial_verifies_exactly_when_it_opens() {
    let app = application();
    let mut rng = StdRng::seed_from_u64(5);
    let poly = registry(&Scalar::from_u64(3), &Scalar::from_u64(4));
    let committed = poly.commit(app.generators(), &mut rng);
    assert!(committed.verify(app.generators()));
    let moved = ragu_pcd::polynomials::committed::CommittedPolynomial::new_unchecked(
        poly.clone(),
        committed.blind(),
        committed.commitment().add(&hashed(1)),
    );
    assert!(!moved.verify(app.generators()));
    // Too few generators verify nothing.
    let few = Generators::new((0..4u64).map(hashed).collect(), hashed(128));
    assert!(!committed.verify(&few));
}

#[test]
fn the_checking_circuits_are_bound_to_the_public_inputs() {
    let app = application();
    let base = base_case(&app);
    let fused = rounds(&app, &base, &base, 9).expect("the fusion succeeds");
    let mut rng = StdRng::seed_from_u64(10);
    let key = Key::trivial();
    let instance = app.unified_instance(
        &fused.preamble,
        &fused.s_prime,
        &fused.error_n,
        &fused.error_m,
        &fused.ab,
        &fused.query,
        &fused.f,
        &fused.eval,
        &fused.p,
        &fused.challenges,
    );
    assert!(instance.equals(&Instance::new(
        &fused.preamble,
        &fused.s_prime,
        &fused.error_n,
        &fused.error_m,
        &fused.ab,
        &fused.query,
        &fused.f,
        &fused.eval,
        &fused.p,
        &fused.challenges,
    )));
    assert!(instance.v.equals(&fused.p.v));
    assert!(instance.u.equals(&fused.challenges.u));
    assert!(instance.nested_f_commitment.equals(&fused.f.nested_rx.commitment));

    let traces = traces_for(&instance);
    let circuits = app
        .compute_internal_circuits(&mut rng, &instance, &traces, &key)
        .expect("the traces belong to the public inputs");
    assert!(circuits.compute_v.verify(app.generators()));

    // Traces recorded for another claimed value are refused.
    let mut other = instance;
    other.v = other.v.add(&Scalar::one());
    assert!(!other.equals(&instance));
    let strayed = traces_for(&other);
    assert_eq!(
        app.compute_internal_circuits(&mut rng, &instance, &strayed, &key).err(),
        Some(Error::InstanceMismatch)
    );

    // Traces recorded for another commitment are refused.
    let mut other = instance;
    other.nested_ab_commitment = fused.f.nested_rx.commitment;
    let strayed = traces_for(&other);
    assert_eq!(
        app.compute_internal_circuits(&mut rng, &instance, &strayed, &key).err(),
        Some(Error::InstanceMismatch)
    );

    // A mismatch is reported before the bound of the rank.
    let mut long = traces_for(&other);
    long.compute_v = trace(&Scalar::one(), 40);
    assert_eq!(
        app.compute_internal_circuits(&mut rng, &instance, &long, &key).err(),
        Some(Error::InstanceMismatch)
    );
    let mut long = traces_for(&instance);
    long.compute_v = trace(&Scalar::one(), 40);
    assert_eq!(
        app.compute_internal_circuits(&mut rng, &instance, &long, &key).err(),
        Some(Error::MultiplicationBoundExceeded(32))
    );
}

#[test]
fn a_fusion_with_a_fixed_seed_is_deterministic() {
    let app = application();
    let base = base_case(&app);
    let first = rounds(&app, &base, &base, 1234).expect("the fusion succeeds");
    let second = rounds(&app, &base, &base, 1234).expect("the fusion succeeds");
    assert!(same(&first, &second));
}

#[test]
fn another_seed_gives_another_proof() {
    let app = application();
    let base = base_case(&app);
    let first = rounds(&app, &base, &base, 1234).expect("the fusion succeeds");
    let other = rounds(&app, &base, &base, 1235).expect("the fusion succeeds");
    assert!(!same(&first, &other));
}

#[test]
fn a_fused_proof_can_be_fused_again() {
    let app = application();
    let base = base_case(&app);
    let fused = rounds(&app, &base, &base, 1).expect("the first fusion succeeds");
    let again = rounds(&app, &fused, &base, 2).expect("the second fusion succeeds");
    assert!(!again.p.v.equals(&fused.p.v));
    assert!(!again.challenges.w.equals(&fused.challenges.w));
    assert!(again.p.poly.poly().eval(&again.challenges.u).equals(&again.p.v));
    assert!(again.ab.a.poly().revdot(again.ab.b.poly()).equals(&again.ab.c));
    assert!(again.p.poly.verify(app.generators()));
    assert!(again.ab.a.verify(app.generators()));
}

#[test]
fn a_fusion_hands_out_only_what_holds_together() {
    let app = application();
    let base = base_case(&app);
    let fused = fuse(&app, &base, &base, 3).expect("the fusion succeeds");
    assert!(!fused.p.v.is_zero());
    assert!(fused.circuits.compute_v.verify(app.generators()));
}

#[test]
fn a_nested_commitment_verifies_exactly_when_it_opens() {
    let generators = nested_generators_of(4);
    let committed = nested_under(&generators, &[hashed(1), hashed(2)]);
    assert!(committed.commitment.is_on_curve());
    assert!(committed.verify(&generators));

    let mut moved = committed.clone();
    moved.commitment = nested_hashed(9);
    assert!(!moved.verify(&generators));
    let mut other_blind = committed.clone();
    other_blind.blind = NestedScalar { bytes: [2u8; 32] };
    assert!(!other_blind.verify(&generators));
    let mut other_poly = committed.clone();
    other_poly.poly.coeffs[3] = NestedScalar { bytes: [3u8; 32] };
    assert!(!other_poly.verify(&generators));

    // An encoding that is not canonical opens nothing, and neither does a
    // polynomial that the generators do not suffice for.
    let mut large = committed.clone();
    large.blind = NestedScalar { bytes: [0xff; 32] };
    assert!(!large.verify(&generators));
    assert!(!NestedScalar { bytes: [0xff; 32] }.is_canonical());
    let long = nested_poly(&[hashed(1), hashed(2), hashed(3)]);
    assert!(long.commit_with_blind(&generators, NestedScalar { bytes: [1u8; 32] }).is_none());
    let mut rng = StdRng::seed_from_u64(3);
    let drawn = nested_poly(&[hashed(5)]).commit(&generators, &mut rng).expect("two coefficients");
    assert!(drawn.verify(&generators));
    assert!(drawn.blind.is_canonical());
}

#[test]
fn a_nested_commitment_is_the_blinded_sum_of_multiples() {
    let to_outside = |p: &NestedPoint| {
        let x: Option<pasta_curves::Fp> = pasta_curves::Fp::from_repr(p.x.to_bytes()).into();
        let y: Option<pasta_curves::Fp> = pasta_curves::Fp::from_repr(p.y.to_bytes()).into();
        let (x, y) = (x.expect("canonical"), y.expect("canonical"));
        let affine: pasta_curves::pallas::Affine =
            Option::from(pasta_curves::pallas::Affine::from_xy(x, y)).unwrap();
        pasta_curves::pallas::Point::from(affine)
    };
    let generators = nested_generators_of(4);
    let mut two = [0u8; 32];
    two[0] = 2;
    let mut three = [0u8; 32];
    three[0] = 3;
    let poly = NestedPolynomial { coeffs: vec![NestedScalar { bytes: two }] };
    let committed = poly
        .commit_with_blind(&generators, NestedScalar { bytes: three })
        .expect("one canonical coefficient");
    // 3 * h + 2 * g[0]
    let g0 = to_outside(&nested_hashed(0));
    let h = to_outside(&nested_hashed(4));
    let expected = (h + h + h + g0 + g0).to_affine();
    let c: pasta_curves::arithmetic::Coordinates<pasta_curves::pallas::Affine> =
        Option::from(expected.coordinates()).expect("not the point at infinity");
    assert_eq!(committed.commitment.x.to_bytes(), c.x().to_repr());
    assert_eq!(committed.commitment.y.to_bytes(), c.y().to_repr());
}

#[test]
fn nested_generators_are_points_of_the_nested_curve() {
    assert!(nested_hashed(1).is_on_curve());
    assert!(NestedPoint::identity().is_on_curve());
    let made_up = NestedPoint::new(Scalar::from_u64(5), Scalar::from_u64(6));
    assert!(!made_up.is_on_curve());
    assert!(NestedGenerators::new(vec![nested_hashed(1), made_up], nested_hashed(2)).is_none());
    assert!(NestedGenerators::new(vec![nested_hashed(1)], made_up).is_none());
    let generators =
        NestedGenerators::new(vec![nested_hashed(1)], nested_hashed(2)).expect("on the curve");
    assert_eq!(generators.len(), 1);
}

#[test]
fn a_proof_with_a_nested_commitment_that_does_not_open_is_refused() {
    let app = application();
    let base = base_case(&app);
    let mut tampered = base.clone();
    tampered.query.nested_rx.commitment = nested_hashed(7);
    assert!(!app.check(&tampered));
    assert_eq!(reassembled(&app, &tampered).err(), Some(Error::InconsistentProof));
}

#[test]
fn the_first_part_of_a_proof_has_headers_of_the_fixed_size() {
    let app = application();
    let mut rng = StdRng::seed_from_u64(1);
    let key = Key::trivial();
    let header = vec![Scalar::from_u64(3); HEADER_SIZE];
    let step = trace(&Scalar::from_u64(2), 3);
    let id = CircuitIndex::new(4);
    let made = app
        .application_proof(&mut rng, &key, id, header.clone(), header.clone(), &step)
        .expect("headers of the fixed size and few gates");
    assert_eq!(made.circuit_id.index, 4);
    assert_eq!(made.left_header.len(), HEADER_SIZE);
    assert!(made.rx.verify(app.generators()));
    let expected = step.assemble_with_key(&key, rank()).expect("few gates");
    assert!(same_coefficients(&made.rx.poly().coefficients(), &expected.coefficients()));

    let short = vec![Scalar::from_u64(3); HEADER_SIZE - 1];
    assert_eq!(
        app.application_proof(&mut rng, &key, id, short, header.clone(), &step).err(),
        Some(Error::LengthMismatch)
    );
    let long = trace(&Scalar::from_u64(2), 40);
    assert_eq!(
        app.application_proof(&mut rng, &key, id, header.clone(), header, &long).err(),
        Some(Error::MultiplicationBoundExceeded(32))
    );
}
