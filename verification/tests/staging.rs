use ragu_pcd::error::Error;
use ragu_pcd::field::Scalar;
use ragu_pcd::polynomials::staging::tz;
use ragu_pcd::polynomials::staging::Staging;
use ragu_pcd::polynomials::staging::StagingCircuit;
use ragu_pcd::polynomials::structured::Wire;
use ragu_pcd::polynomials::Rank;
use rand::rngs::StdRng;
use rand::SeedableRng;

fn rank() -> Rank {
    Rank::new(7).expect("a rank of 32 gates")
}

fn random_values(count: usize, rng: &mut StdRng) -> Vec<Scalar> {
    (0..count).map(|_| Scalar::random(rng)).collect()
}

#[test]
fn test_staging_valid() {
    let mut rng = StdRng::seed_from_u64(13);
    let stage1 = StagingCircuit::root(13);
    let stage2 = StagingCircuit::after(&stage1, 20).expect("the second stage");

    let rx1 = stage1.rx(&random_values(13, &mut rng), rank()).expect("the first trace");
    let rx2 = stage2.rx(&random_values(20, &mut rng), rank()).expect("the second trace");

    let circ1 = stage1.into_object(rank()).expect("the first staging polynomial");
    let circ2 = stage2.into_object(rank()).expect("the second staging polynomial");

    let z = Scalar::random(&mut rng);
    let y = Scalar::random(&mut rng);

    {
        let mut rhs = rx1.clone();
        rhs.dilate(&z);
        rhs.add_assign(&circ1.sy(&y));
        rhs.add_assign(&tz(rank(), &z));
        assert!(rx1.revdot(&rhs).equals(&Scalar::zero()));
    }

    assert!(rx1.revdot(&circ1.sy(&y)).equals(&Scalar::zero()));
    assert!(rx2.revdot(&circ2.sy(&y)).equals(&Scalar::zero()));
    assert!(!rx1.revdot(&circ2.sy(&y)).equals(&Scalar::zero()));
    assert!(!rx2.revdot(&circ1.sy(&y)).equals(&Scalar::zero()));
}

#[test]
fn stages_count_their_gates() {
    let stage1 = StagingCircuit::root(13);
    assert_eq!(stage1.values(), 13);
    assert_eq!(stage1.size(), 7);
    assert_eq!(stage1.skip(), 0);
    let stage2 = StagingCircuit::after(&stage1, 20).expect("the second stage");
    assert_eq!(stage2.values(), 20);
    assert_eq!(stage2.size(), 10);
    assert_eq!(stage2.skip(), 7);
    let empty = StagingCircuit::root(0);
    assert_eq!(empty.size(), 0);
    assert!(StagingCircuit::after(&StagingCircuit::root(usize::MAX), usize::MAX).is_none());
}

#[test]
fn the_trace_of_a_stage_holds_its_values_in_pairs() {
    let stage1 = StagingCircuit::root(2);
    let stage2 = StagingCircuit::after(&stage1, 3).expect("the second stage");
    let values = vec![Scalar::from_u64(3), Scalar::from_u64(5), Scalar::from_u64(7)];
    let rx = stage2.rx(&values, rank()).expect("the trace");
    // The first two gates, gate 0 and that of the first stage, stay empty.
    for gate in 0..2 {
        assert!(rx.get(Wire::A, gate).is_zero());
        assert!(rx.get(Wire::B, gate).is_zero());
        assert!(rx.get(Wire::C, gate).is_zero());
    }
    assert!(rx.get(Wire::A, 2).equals(&Scalar::from_u64(3)));
    assert!(rx.get(Wire::B, 2).equals(&Scalar::from_u64(5)));
    assert!(rx.get(Wire::C, 2).equals(&Scalar::from_u64(15)));
    // The last value has no partner.
    assert!(rx.get(Wire::A, 3).equals(&Scalar::from_u64(7)));
    assert!(rx.get(Wire::B, 3).is_zero());
    assert!(rx.get(Wire::C, 3).is_zero());
    for gate in 0..rank().n() {
        assert!(rx.get(Wire::D, gate).is_zero());
    }
    assert!(rx.get(Wire::A, 4).is_zero());
}

#[test]
fn a_stage_beyond_the_capacity_is_refused() {
    let n = rank().n();
    assert_eq!(n, 32);
    // skip + size + 1 == n is the last that fits.
    assert!(Staging::new(rank(), 20, 11).is_ok());
    assert!(Staging::new(rank(), 0, 31).is_ok());
    match Staging::new(rank(), 20, 12) {
        Err(e) => assert_eq!(e, Error::MultiplicationBoundExceeded(32)),
        Ok(_) => panic!("33 gates do not fit into 32"),
    }
    match Staging::new(rank(), usize::MAX, usize::MAX) {
        Err(e) => assert_eq!(e, Error::MultiplicationBoundExceeded(32)),
        Ok(_) => panic!("more gates than can be counted do not fit into 32"),
    }
    // 62 values need 31 gates, which with gate 0 are all there are.
    let fits = StagingCircuit::root(62);
    let values: Vec<Scalar> = (0..62).map(Scalar::from_u64).collect();
    assert!(fits.rx(&values, rank()).is_ok());
    assert!(fits.into_object(rank()).is_ok());
    let too_large = StagingCircuit::root(63);
    let values: Vec<Scalar> = (0..63).map(Scalar::from_u64).collect();
    match too_large.rx(&values, rank()) {
        Err(e) => assert_eq!(e, Error::MultiplicationBoundExceeded(32)),
        Ok(_) => panic!("the stage needs 33 gates"),
    }
    match too_large.into_object(rank()) {
        Err(e) => assert_eq!(e, Error::MultiplicationBoundExceeded(32)),
        Ok(_) => panic!("the stage needs 33 gates"),
    }
}

#[test]
fn the_three_restrictions_of_the_staging_polynomial_agree() {
    let mut rng = StdRng::seed_from_u64(20);
    let zero = Scalar::zero();
    for (skip, size) in [(0usize, 0usize), (0, 5), (3, 4), (7, 10), (30, 1), (0, 31), (31, 0)] {
        let staging = Staging::new(rank(), skip, size).expect("the stage fits");
        let x = Scalar::random(&mut rng);
        let y = Scalar::random(&mut rng);
        for (x, y) in [(x, y), (zero, y), (x, zero), (zero, zero)] {
            let sxy = staging.sxy(&x, &y);
            assert!(staging.sy(&y).eval(&x).equals(&sxy));
            assert!(staging.sx(&x).eval(&y).equals(&sxy));
            if x.is_zero() || y.is_zero() {
                assert!(sxy.is_zero());
            }
        }
    }
}

#[test]
fn the_staging_polynomial_constrains_every_gate_outside_the_stage() {
    let staging = Staging::new(rank(), 2, 3).expect("the stage fits");
    let y = Scalar::from_u64(2);
    let sy = staging.sy(&y);
    // 32 gates less gate 0 and the three of the stage: 28 gates, 84 constraints.
    // Seen against the reversed powers, the wires change places: what
    // constrains wire A of a trace lies on wire B, what constrains wire C
    // lies on wire D.
    assert!(sy.get(Wire::B, 1).equals(&y.pow(84)));
    assert!(sy.get(Wire::A, 1).equals(&y.pow(83)));
    assert!(sy.get(Wire::D, 1).equals(&y.pow(82)));
    assert!(sy.get(Wire::B, 2).equals(&y.pow(81)));
    for gate in [0usize, 3, 4, 5] {
        assert!(sy.get(Wire::A, gate).is_zero());
        assert!(sy.get(Wire::B, gate).is_zero());
        assert!(sy.get(Wire::D, gate).is_zero());
    }
    assert!(sy.get(Wire::B, 6).equals(&y.pow(78)));
    assert!(sy.get(Wire::D, 31).equals(&y.pow(1)));
    for gate in 0..32 {
        assert!(sy.get(Wire::C, gate).is_zero());
    }
    // The constant term of s(x, Y) is zero, the last constraint carries Y.
    let x = Scalar::from_u64(3);
    let sx = staging.sx(&x);
    assert!(sx.get(0).is_zero());
    assert!(sx.get(1).equals(&x.pow(4 * 32 - 1 - 31)));
    assert!(sx.get(84).equals(&x.pow(2 * 32 - 1 - 1)));
    assert!(sx.get(85).is_zero());
}
