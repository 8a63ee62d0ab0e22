use ff::PrimeField;
use pasta_curves::arithmetic::CurveAffine;
use pasta_curves::arithmetic::CurveExt;
use group::Curve;
use ragu_pcd::circuits::compute_v::accumulate_evaluations;
use ragu_pcd::circuits::stages::eval;
use ragu_pcd::curve::Generators;
use ragu_pcd::curve::Point;
use ragu_pcd::field::Scalar;
use ragu_pcd::fold_revdot::Parameters;
use ragu_pcd::fuse::p::accumulate_points;
use ragu_pcd::fuse::p::Accumulator;
use ragu_pcd::fuse::p::TermRef;
use ragu_pcd::fuse::Application;
use ragu_pcd::nested::NestedGenerators;
use ragu_pcd::nested::NestedPoint;
use ragu_pcd::pcd::trivial;
use ragu_pcd::pcd::Proof;
use ragu_pcd::polynomials::committed::Committable;
use ragu_pcd::polynomials::structured;
use ragu_pcd::polynomials::structured::Wire;
use ragu_pcd::polynomials::unstructured;
use ragu_pcd::polynomials::Rank;
use rand::rngs::StdRng;
use rand::SeedableRng;

fn hashed(index: u64) -> Point {
    let hasher = pasta_curves::vesta::Point::hash_to_curve("ragu_pcd:tests");
    let affine = hasher(&index.to_le_bytes()).to_affine();
    let c: pasta_curves::arithmetic::Coordinates<pasta_curves::vesta::Affine> =
        Option::from(affine.coordinates()).expect("not the point at infinity");
    Point::from_xy(c.x().to_repr(), c.y().to_repr()).expect("a point of the curve")
}

fn generators(count: usize) -> Generators {
    let g: Vec<Point> = (0..count as u64).map(hashed).collect();
    Generators::new(g, hashed(count as u64))
}

fn rank() -> Rank {
    Rank::new(3).expect("eight coefficients")
}

fn nested_hashed(index: u64) -> NestedPoint {
    let hasher = pasta_curves::pallas::Point::hash_to_curve("ragu_pcd:tests:nested");
    let affine = hasher(&index.to_le_bytes()).to_affine();
    let c: pasta_curves::arithmetic::Coordinates<pasta_curves::pallas::Affine> =
        Option::from(affine.coordinates()).expect("not the point at infinity");
    NestedPoint::new(
        Scalar::from_bytes(c.x().to_repr()).expect("a coordinate of Pallas"),
        Scalar::from_bytes(c.y().to_repr()).expect("a coordinate of Pallas"),
    )
}

fn nested_generators(count: usize) -> NestedGenerators {
    let g: Vec<NestedPoint> = (0..count as u64).map(nested_hashed).collect();
    NestedGenerators::new(g, nested_hashed(count as u64)).expect("points of the nested curve")
}

fn random_structured(rng: &mut StdRng) -> structured::Polynomial {
    let mut poly = structured::Polynomial::new(rank());
    for gate in 0..rank().n() {
        poly.set(Wire::A, gate, Scalar::random(rng));
        poly.set(Wire::B, gate, Scalar::random(rng));
        poly.set(Wire::C, gate, Scalar::random(rng));
    }
    poly
}

fn random_unstructured(rng: &mut StdRng) -> unstructured::Polynomial {
    let coeffs: Vec<Scalar> = (0..8).map(|_| Scalar::random(rng)).collect();
    unstructured::Polynomial::from_coeffs(rank(), coeffs).expect("eight coefficients")
}

/// A proof whose polynomials are random, committed under the generators.
fn random_proof(generators: &Generators, rng: &mut StdRng) -> Proof {
    let mut proof =
        trivial(rank(), 4, 2, generators, &nested_generators(8)).expect("enough generators");
    proof.application.rx = random_structured(rng).commit(generators, rng);
    proof.preamble.native_rx = random_structured(rng).commit(generators, rng);
    proof.s_prime.registry_wx0 = random_unstructured(rng).commit(generators, rng);
    proof.s_prime.registry_wx1 = random_unstructured(rng).commit(generators, rng);
    proof.error_n.native_rx = random_structured(rng).commit(generators, rng);
    proof.error_m.registry_wy = random_structured(rng).commit(generators, rng);
    proof.error_m.native_rx = random_structured(rng).commit(generators, rng);
    proof.ab.a = random_structured(rng).commit(generators, rng);
    proof.ab.b = random_structured(rng).commit(generators, rng);
    proof.query.registry_xy = random_unstructured(rng).commit(generators, rng);
    proof.query.native_rx = random_structured(rng).commit(generators, rng);
    proof.f.poly = random_unstructured(rng).commit(generators, rng);
    proof.eval.native_rx = random_structured(rng).commit(generators, rng);
    proof.p.poly = random_unstructured(rng).commit(generators, rng);
    proof.circuits.hashes_1 = random_structured(rng).commit(generators, rng);
    proof.circuits.hashes_2 = random_structured(rng).commit(generators, rng);
    proof.circuits.partial_collapse = random_structured(rng).commit(generators, rng);
    proof.circuits.full_collapse = random_structured(rng).commit(generators, rng);
    proof.circuits.compute_v = random_structured(rng).commit(generators, rng);
    proof
}

#[test]
fn the_trivial_proof_is_all_zero_with_blinding_factor_one() {
    let generators = generators(8);
    let nested_generators = nested_generators(8);
    let proof =
        trivial(rank(), 4, 3, &generators, &nested_generators).expect("enough generators");
    assert_eq!(proof.application.circuit_id.index, 0);
    assert_eq!(proof.application.left_header.len(), 4);
    assert_eq!(proof.application.right_header.len(), 4);
    assert!(proof.application.left_header.iter().all(|e| e.is_zero()));
    assert!(proof.ab.c.is_zero());
    assert!(proof.p.v.is_zero());
    assert_eq!(proof.p.step_rxs.len(), 3);
    assert_eq!(proof.p.step_rxs[0].coeffs.len(), 8);
    assert!(proof.p.step_rxs.iter().all(|p| p.coeffs.iter().all(|c| c.bytes == [0u8; 32])));
    assert_eq!(proof.p.endoscalar_rx.coeffs.len(), 8);
    assert_eq!(proof.p.points_rx.coeffs.len(), 8);
    assert!(proof.challenges.w.is_zero());
    assert!(proof.challenges.pre_beta.is_zero());
    let x = Scalar::from_u64(3);
    assert!(proof.application.rx.poly().eval(&x).is_zero());
    assert!(proof.p.poly.poly().eval(&x).is_zero());
    assert!(proof.application.rx.blind().equals(&Scalar::one()));
    assert!(proof.f.poly.blind().equals(&Scalar::one()));
    // The commitment to zero under the blinding factor one is h, on both
    // curves.
    assert!(proof.application.rx.commitment().equals(&hashed(8)));
    assert!(proof.p.poly.commitment().equals(&hashed(8)));
    let mut one = [0u8; 32];
    one[0] = 1;
    for nested in [
        &proof.preamble.nested_rx,
        &proof.s_prime.nested_s_prime_rx,
        &proof.error_n.nested_rx,
        &proof.error_m.nested_rx,
        &proof.ab.nested_rx,
        &proof.query.nested_rx,
        &proof.f.nested_rx,
        &proof.eval.nested_rx,
    ] {
        assert_eq!(nested.poly.coeffs.len(), 8);
        assert!(nested.poly.coeffs.iter().all(|c| c.bytes == [0u8; 32]));
        assert_eq!(nested.blind.bytes, one);
        assert!(nested.commitment.equals(&nested_hashed(8)));
        assert!(nested.verify(&nested_generators));
    }
    // Too few generators on the nested curve are refused.
    match trivial(rank(), 4, 3, &generators, &self::nested_generators(7)) {
        Err(e) => assert_eq!(e, ragu_pcd::error::Error::CoefficientBoundExceeded(8)),
        Ok(_) => panic!("seven generators do not suffice for eight coefficients"),
    }
    let pcd = proof.carry(17u32);
    assert_eq!(pcd.data, 17);
    assert!(pcd.proof.ab.c.is_zero());
}

#[test]
fn the_accumulator_multiplies_by_beta_and_adds() {
    let generators = generators(8);
    let mut rng = StdRng::seed_from_u64(1);
    let start = random_unstructured(&mut rng).commit(&generators, &mut rng);
    let first = random_structured(&mut rng).commit(&generators, &mut rng);
    let second = random_unstructured(&mut rng).commit(&generators, &mut rng);
    let beta = Scalar::random(&mut rng);
    let mut acc = Accumulator::new(&start, beta);
    acc.acc(TermRef::Structured(&first));
    acc.acc(TermRef::Unstructured(&second));
    let (poly, blind, commitments) = acc.finish();
    let x = Scalar::random(&mut rng);
    let expected = beta
        .pow(2)
        .mul(&start.poly().eval(&x))
        .add(&beta.mul(&first.poly().eval(&x)))
        .add(&second.poly().eval(&x));
    assert!(poly.eval(&x).equals(&expected));
    let expected_blind =
        beta.pow(2).mul(&start.blind()).add(&beta.mul(&first.blind())).add(&second.blind());
    assert!(blind.equals(&expected_blind));
    assert_eq!(commitments.len(), 2);
    assert!(commitments[0].equals(&first.commitment()));
    assert!(commitments[1].equals(&second.commitment()));
}

#[test]
fn the_last_round_accumulates_in_the_fixed_order() {
    let generators = generators(8);
    let params = Parameters::new(2, 2).expect("two groups of two");
    let app = Application::new(
        rank(),
        4,
        generators.clone(),
        nested_generators(8),
        params,
        1,
    ).expect("enough generators");
    let mut rng = StdRng::seed_from_u64(2);
    let left = random_proof(&generators, &mut rng);
    let right = random_proof(&generators, &mut rng);
    let current = random_proof(&generators, &mut rng);
    let beta = Scalar::random(&mut rng);
    let u = Scalar::random(&mut rng);
    let result = app.compute_p(
        &beta,
        &u,
        &left,
        &right,
        &current.s_prime,
        &current.error_m,
        &current.ab,
        &current.query,
        &current.f,
    );

    // The claimed value is the value of the accumulated polynomial.
    assert!(result.v.equals(&result.poly.poly().eval(&u)));

    // It is also what the check derives from f(u) and the values at u.
    let evaluations =
        app.compute_eval(
            &u,
            &left,
            &right,
            &current.s_prime,
            &current.error_m,
            &current.ab,
            &current.query,
        );
    let fu = current.f.poly.poly().eval(&u);
    assert!(accumulate_evaluations(&fu, &evaluations, &beta).equals(&result.v));
    assert_eq!(eval::Stage::stage_values(&evaluations).len(), eval::Stage::values());

    // The commitment is the commitment to the accumulated polynomial under
    // the accumulated blinding factor ...
    let expected = generators.commit(&result.poly.poly().coefficients(), &result.poly.blind());
    assert!(result.poly.commitment().equals(&expected));

    // ... and, commitments being homomorphic, the accumulation of the
    // commitments in the same order.
    assert_eq!(result.points.len(), 37);
    assert!(result.points[0].equals(&current.f.poly.commitment()));
    assert!(result.points[1].equals(&left.application.rx.commitment()));
    assert!(result.points[3].equals(&left.error_n.native_rx.commitment()));
    assert!(result.points[4].equals(&left.error_m.native_rx.commitment()));
    assert!(result.points[16].equals(&right.application.rx.commitment()));
    assert!(result.points[31].equals(&current.s_prime.registry_wx0.commitment()));
    assert!(result.points[36].equals(&current.query.registry_xy.commitment()));
    let mut combined = result.points[0];
    for point in &result.points[1..] {
        combined = combined.mul(&beta).add(point);
    }
    assert!(combined.equals(&result.poly.commitment()));
    assert!(accumulate_points(&result.points, &beta).equals(&result.poly.commitment()));
    assert!(accumulate_points(&Vec::new(), &beta).equals(&Point::identity()));
    assert!(accumulate_points(&vec![hashed(3)], &beta).equals(&hashed(3)));

    // Any permutation changes the claimed value.
    let swapped = app.compute_p(
        &beta,
        &u,
        &right,
        &left,
        &current.s_prime,
        &current.error_m,
        &current.ab,
        &current.query,
        &current.f,
    );
    assert!(!swapped.v.equals(&result.v));
}

#[test]
fn an_application_needs_enough_generators() {
    let params = Parameters::new(2, 2).expect("two groups of two");
    match Application::new(rank(), 4, generators(7), nested_generators(8), params, 1) {
        Err(e) => assert_eq!(e, ragu_pcd::error::Error::CoefficientBoundExceeded(8)),
        Ok(_) => panic!("seven generators do not suffice for eight coefficients"),
    }
    let app = Application::new(rank(), 4, generators(8), nested_generators(8), params, 5)
        .expect("enough generators");
    assert_eq!(app.header_size(), 4);
    assert_eq!(app.num_application_steps(), 5);
    assert_eq!(app.rank().n(), 2);
    assert_eq!(app.generators().len(), 8);
    assert_eq!(app.params().n(), 2);
}
