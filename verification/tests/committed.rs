use ff::PrimeField;
use pasta_curves::arithmetic::CurveAffine;
use pasta_curves::arithmetic::CurveExt;
use group::Curve;
use ragu_pcd::curve::Generators;
use ragu_pcd::curve::Point;
use ragu_pcd::field::Scalar;
use ragu_pcd::polynomials::committed::Committable;
use ragu_pcd::polynomials::committed::CommittedPolynomial;
use ragu_pcd::polynomials::structured;
use ragu_pcd::polynomials::structured::Wire;
use ragu_pcd::polynomials::unstructured;
use ragu_pcd::polynomials::Rank;
use rand::rngs::StdRng;
use rand::SeedableRng;

fn hashed(index: u64) -> Point {
    let hasher = pasta_curves::vesta::Point::hash_to_curve("ragu_pcd:tests");
    let affine = hasher(&index.to_le_bytes()).to_affine();
    let c: pasta_curves::arithmetic::Coordinates<pasta_curves::vesta::Affine> =
        Option::from(affine.coordinates()).expect("not the point at infinity");
    Point::from_xy(c.x().to_repr(), c.y().to_repr()).expect("a point of the curve")
}

fn generators(count: usize) -> Generators {
    let g: Vec<Point> = (0..count as u64).map(hashed).collect();
    Generators::new(g, hashed(count as u64))
}

fn random_unstructured(rank: Rank, rng: &mut StdRng) -> unstructured::Polynomial {
    let coeffs: Vec<Scalar> = (0..rank.num_coeffs()).map(|_| Scalar::random(rng)).collect();
    unstructured::Polynomial::from_coeffs(rank, coeffs).expect("exactly enough coefficients")
}

#[test]
fn commit_with_blind_keeps_the_triple_together() {
    let rank = Rank::new(3).expect("eight coefficients");
    let generators = generators(8);
    let mut rng = StdRng::seed_from_u64(1);
    let poly = random_unstructured(rank, &mut rng);
    let blind = Scalar::random(&mut rng);
    let committed = poly.commit_with_blind(&generators, blind);
    assert!(committed.blind().equals(&blind));
    let x = Scalar::random(&mut rng);
    assert!(committed.poly().eval(&x).equals(&poly.eval(&x)));
    let expected = generators.commit(&poly.coefficients(), &blind);
    assert!(committed.commitment().equals(&expected));
    // The blinding factor enters the commitment.
    let other = poly.commit_with_blind(&generators, blind.add(&Scalar::one()));
    assert!(!other.commitment().equals(&committed.commitment()));
}

#[test]
fn commit_is_deterministic_given_polynomial_blind_and_generators() {
    let rank = Rank::new(3).expect("eight coefficients");
    let generators = generators(8);
    let mut rng = StdRng::seed_from_u64(2);
    let poly = random_unstructured(rank, &mut rng);
    let blind = Scalar::random(&mut rng);
    let first = poly.commit_with_blind(&generators, blind);
    let second = poly.commit_with_blind(&generators, blind);
    assert!(first.commitment().equals(&second.commitment()));
    // With a seeded generator the sampled blinding factor repeats as well.
    let mut rng_a = StdRng::seed_from_u64(3);
    let mut rng_b = StdRng::seed_from_u64(3);
    let a = poly.commit(&generators, &mut rng_a);
    let b = poly.commit(&generators, &mut rng_b);
    assert!(a.blind().equals(&b.blind()));
    assert!(a.commitment().equals(&b.commitment()));
}

#[test]
fn commitments_are_additively_homomorphic() {
    let rank = Rank::new(3).expect("eight coefficients");
    let generators = generators(8);
    let mut rng = StdRng::seed_from_u64(4);
    let a = random_unstructured(rank, &mut rng);
    let b = random_unstructured(rank, &mut rng);
    let blind_a = Scalar::random(&mut rng);
    let blind_b = Scalar::random(&mut rng);
    let beta = Scalar::random(&mut rng);
    let com_a = a.commit_with_blind(&generators, blind_a);
    let com_b = b.commit_with_blind(&generators, blind_b);
    // commit(beta * A + B, beta * rA + rB)
    let mut combined = a.duplicate();
    combined.scale(&beta);
    combined.add_assign(&b);
    let combined_blind = beta.mul(&blind_a).add(&blind_b);
    let left = combined.commit_with_blind(&generators, combined_blind);
    // beta * commit(A, rA) + commit(B, rB)
    let right = com_a.commitment().mul(&beta).add(&com_b.commitment());
    assert!(left.commitment().equals(&right));
}

#[test]
fn structured_polynomials_commit_by_their_coefficients() {
    let rank = Rank::new(3).expect("eight coefficients");
    let generators = generators(8);
    let mut poly = structured::Polynomial::new(rank);
    poly.set(Wire::A, 1, Scalar::from_u64(3));
    poly.set(Wire::C, 0, Scalar::from_u64(4));
    let blind = Scalar::from_u64(9);
    let committed = poly.commit_with_blind(&generators, blind);
    let expected = generators.commit(&poly.coefficients(), &blind);
    assert!(committed.commitment().equals(&expected));
    let copy = committed.duplicate();
    assert!(copy.commitment().equals(&committed.commitment()));
    assert!(copy.blind().equals(&blind));
}

#[test]
fn new_unchecked_takes_the_triple_as_it_is() {
    let rank = Rank::new(2).expect("four coefficients");
    let poly = unstructured::Polynomial::new(rank);
    let blind = Scalar::from_u64(5);
    let commitment = hashed(99);
    let triple = CommittedPolynomial::new_unchecked(poly, blind, commitment);
    assert!(triple.blind().equals(&blind));
    assert!(triple.commitment().equals(&commitment));
    assert!(triple.poly().eval(&Scalar::from_u64(3)).is_zero());
}
