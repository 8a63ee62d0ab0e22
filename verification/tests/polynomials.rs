use ragu_pcd::error::Error;
use ragu_pcd::field::Scalar;
use ragu_pcd::polynomials::structured;
use ragu_pcd::polynomials::structured::Wire;
use ragu_pcd::polynomials::unstructured;
use ragu_pcd::polynomials::Rank;
use rand::rngs::StdRng;
use rand::SeedableRng;

fn s(value: u64) -> Scalar {
    Scalar::from_u64(value)
}

fn small() -> Rank {
    Rank::new(3).expect("eight coefficients")
}

fn from_values(rank: Rank, values: &[u64]) -> unstructured::Polynomial {
    unstructured::Polynomial::from_coeffs(rank, values.iter().map(|v| s(*v)).collect())
        .expect("few enough coefficients")
}

fn random_structured(rank: Rank, rng: &mut StdRng) -> structured::Polynomial {
    let mut poly = structured::Polynomial::new(rank);
    for gate in 0..rank.n() {
        poly.set(Wire::A, gate, Scalar::random(rng));
        poly.set(Wire::B, gate, Scalar::random(rng));
        poly.set(Wire::C, gate, Scalar::random(rng));
        poly.set(Wire::D, gate, Scalar::random(rng));
    }
    poly
}

#[test]
fn rank_fixes_the_number_of_gates_and_coefficients() {
    assert!(Rank::new(0).is_none());
    assert!(Rank::new(1).is_none());
    assert!(Rank::new(31).is_none());
    let smallest = Rank::new(2).expect("four coefficients");
    assert_eq!(smallest.n(), 1);
    assert_eq!(smallest.num_coeffs(), 4);
    let rank = Rank::new(7).expect("128 coefficients");
    assert_eq!(rank.n(), 32);
    assert_eq!(rank.num_coeffs(), 128);
    assert_eq!(rank.log2_coeffs(), 7);
    let largest = Rank::new(30).expect("the largest rank");
    assert_eq!(largest.n(), 1 << 28);
}

#[test]
fn from_coeffs_pads_with_zeros_and_refuses_too_many() {
    let rank = small();
    let poly = from_values(rank, &[1, 2, 3]);
    let coeffs = poly.coefficients();
    assert_eq!(coeffs.len(), 8);
    assert!(coeffs[0].equals(&s(1)));
    assert!(coeffs[2].equals(&s(3)));
    assert!(coeffs[3..].iter().all(|c| c.is_zero()));
    let too_many: Vec<Scalar> = (0..9).map(s).collect();
    match unstructured::Polynomial::from_coeffs(rank, too_many) {
        Err(e) => assert_eq!(e, Error::CoefficientBoundExceeded(8)),
        Ok(_) => panic!("nine coefficients do not fit into eight"),
    }
    let exactly: Vec<Scalar> = (0..8).map(s).collect();
    assert!(unstructured::Polynomial::from_coeffs(rank, exactly).is_ok());
}

#[test]
fn eval_is_the_value_of_the_polynomial() {
    let rank = small();
    // 1 + 2x + 3x^2 at x = 5 is 86.
    let poly = from_values(rank, &[1, 2, 3]);
    assert!(poly.eval(&s(5)).equals(&s(86)));
    assert!(poly.eval(&s(0)).equals(&s(1)));
    assert!(unstructured::Polynomial::new(rank).eval(&s(5)).is_zero());
}

#[test]
fn scale_and_add_assign_act_on_every_coefficient() {
    let rank = small();
    let mut poly = from_values(rank, &[1, 2, 3]);
    poly.scale(&s(10));
    poly.add_assign(&from_values(rank, &[5, 0, 0, 7]));
    let coeffs = poly.coefficients();
    let expected = [15u64, 20, 30, 7, 0, 0, 0, 0];
    for (c, e) in coeffs.iter().zip(expected.iter()) {
        assert!(c.equals(&s(*e)));
    }
    poly.set(7, s(9));
    assert!(poly.get(7).equals(&s(9)));
    assert!(poly.get(0).equals(&s(15)));
}

#[test]
fn wires_lie_where_the_layout_says() {
    let rank = small();
    let n = rank.n();
    assert_eq!(n, 2);
    let mut poly = structured::Polynomial::new(rank);
    poly.set(Wire::A, 1, s(11));
    poly.set(Wire::B, 1, s(12));
    poly.set(Wire::C, 1, s(13));
    poly.set(Wire::D, 1, s(14));
    let coeffs = poly.coefficients();
    assert!(coeffs[2 * n + 1].equals(&s(11)));
    assert!(coeffs[2 * n - 1 - 1].equals(&s(12)));
    assert!(coeffs[1].equals(&s(13)));
    assert!(coeffs[4 * n - 1 - 1].equals(&s(14)));
    assert!(poly.get(Wire::A, 1).equals(&s(11)));
    assert!(poly.get(Wire::A, 0).is_zero());
    let zeros = coeffs.iter().filter(|c| c.is_zero()).count();
    assert_eq!(zeros, 4);
}

#[test]
fn revdot_pairs_each_coefficient_with_its_mirror() {
    let rank = Rank::new(2).expect("four coefficients");
    let a = structured::Polynomial::new(rank);
    let b = structured::Polynomial::new(rank);
    assert!(a.revdot(&b).is_zero());
    // With one gate the coefficients are [C, B, A, D].
    let mut a = structured::Polynomial::new(rank);
    a.set(Wire::C, 0, s(1));
    a.set(Wire::B, 0, s(2));
    a.set(Wire::A, 0, s(3));
    a.set(Wire::D, 0, s(4));
    let mut b = structured::Polynomial::new(rank);
    b.set(Wire::C, 0, s(10));
    b.set(Wire::B, 0, s(20));
    b.set(Wire::A, 0, s(30));
    b.set(Wire::D, 0, s(40));
    // 1 * 40 + 2 * 30 + 3 * 20 + 4 * 10
    assert!(a.revdot(&b).equals(&s(200)));
    // The second operand is the one that is reversed, and only once.
    let mut c = structured::Polynomial::new(rank);
    c.set(Wire::C, 0, s(1));
    let mut d = structured::Polynomial::new(rank);
    d.set(Wire::C, 0, s(1));
    assert!(c.revdot(&d).is_zero());
    d.set(Wire::D, 0, s(5));
    assert!(c.revdot(&d).equals(&s(5)));
}

#[test]
fn revdot_is_symmetric_and_bilinear_on_random_polynomials() {
    let rank = Rank::new(4).expect("sixteen coefficients");
    let mut rng = StdRng::seed_from_u64(7);
    let a = random_structured(rank, &mut rng);
    let b = random_structured(rank, &mut rng);
    let c = random_structured(rank, &mut rng);
    let f = Scalar::random(&mut rng);
    assert!(a.revdot(&b).equals(&b.revdot(&a)));
    let mut sum = b.duplicate();
    sum.scale(&f);
    sum.add_assign(&c);
    let expected = f.mul(&a.revdot(&b)).add(&a.revdot(&c));
    assert!(a.revdot(&sum).equals(&expected));
}

#[test]
fn dilate_evaluates_at_the_scaled_point() {
    let rank = Rank::new(4).expect("sixteen coefficients");
    let mut rng = StdRng::seed_from_u64(8);
    let poly = random_structured(rank, &mut rng);
    let x = Scalar::random(&mut rng);
    let z = Scalar::random(&mut rng);
    let mut dilated = poly.duplicate();
    dilated.dilate(&z);
    assert!(dilated.eval(&x).equals(&poly.eval(&x.mul(&z))));
    assert!(!dilated.eval(&x).equals(&poly.eval(&x)));
    // Coefficient k is multiplied by z^k.
    let before = poly.coefficients();
    let after = dilated.coefficients();
    assert!(after[0].equals(&before[0]));
    assert!(after[3].equals(&before[3].mul(&z.pow(3))));
}

#[test]
fn structured_and_unstructured_share_their_coefficients() {
    let rank = small();
    let mut rng = StdRng::seed_from_u64(9);
    let structured = random_structured(rank, &mut rng);
    let mut flat = unstructured::Polynomial::new(rank);
    flat.add_structured(&structured);
    let x = Scalar::random(&mut rng);
    assert!(flat.eval(&x).equals(&structured.eval(&x)));
    let cloned = structured.clone();
    assert!(cloned.eval(&x).equals(&structured.eval(&x)));
}
