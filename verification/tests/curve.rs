use ff::PrimeField;
use pasta_curves::arithmetic::CurveAffine;
use pasta_curves::arithmetic::CurveExt;
use group::Curve;
use pasta_curves::group::Group;
use ragu_pcd::curve::Generators;
use ragu_pcd::curve::Point;
use ragu_pcd::field::Scalar;

fn from_outside(point: pasta_curves::vesta::Point) -> Point {
    let affine = point.to_affine();
    match Option::from(affine.coordinates()) {
        Some(c) => {
            let c: pasta_curves::arithmetic::Coordinates<pasta_curves::vesta::Affine> = c;
            Point::from_xy(c.x().to_repr(), c.y().to_repr()).expect("a point of the curve")
        }
        None => Point::identity(),
    }
}

fn hashed(index: u64) -> Point {
    let hasher = pasta_curves::vesta::Point::hash_to_curve("ragu_pcd:tests");
    from_outside(hasher(&index.to_le_bytes()))
}

#[test]
fn from_xy_refuses_what_is_not_on_the_curve() {
    let mut one = [0u8; 32];
    one[0] = 1;
    assert!(Point::from_xy(one, one).is_none());
    assert!(Point::from_xy([0xff; 32], one).is_none());
    let identity = Point::from_xy([0u8; 32], [0u8; 32]).expect("the point at infinity");
    assert!(identity.equals(&Point::identity()));
}

#[test]
fn the_generator_has_its_known_coordinates() {
    // The generator of Vesta is (-1, 2).
    let g = from_outside(pasta_curves::vesta::Point::generator());
    let mut two = [0u8; 32];
    two[0] = 2;
    assert_eq!(g.y(), two);
    assert_eq!(g.x(), (-pasta_curves::Fq::from(1u64)).to_repr());
}

#[test]
fn point_addition_agrees_with_the_curve() {
    let p = pasta_curves::vesta::Point::generator();
    let q = p + p;
    let sum = from_outside(p).add(&from_outside(q));
    assert!(sum.equals(&from_outside(p + q)));
    assert!(!sum.equals(&from_outside(p)));
    assert!(!sum.equals(&from_outside(q)));
}

#[test]
fn adding_the_identity_changes_nothing() {
    let p = hashed(1);
    assert!(p.add(&Point::identity()).equals(&p));
    assert!(Point::identity().add(&p).equals(&p));
}

#[test]
fn scalar_multiplication_agrees_with_repeated_addition() {
    let p = hashed(2);
    let three = p.add(&p).add(&p);
    assert!(p.mul(&Scalar::from_u64(3)).equals(&three));
    assert!(p.mul(&Scalar::from_u64(0)).equals(&Point::identity()));
    assert!(p.mul(&Scalar::from_u64(1)).equals(&p));
    assert!(!p.mul(&Scalar::from_u64(3)).equals(&p));
}

#[test]
fn commit_is_the_blinded_sum_of_multiples() {
    let g = vec![hashed(10), hashed(11), hashed(12)];
    let h = hashed(13);
    let generators = Generators::new(g.clone(), h);
    assert_eq!(generators.len(), 3);
    let coeffs = vec![Scalar::from_u64(2), Scalar::from_u64(0), Scalar::from_u64(5)];
    let blind = Scalar::from_u64(7);
    let expected = h
        .mul(&blind)
        .add(&g[0].mul(&coeffs[0]))
        .add(&g[1].mul(&coeffs[1]))
        .add(&g[2].mul(&coeffs[2]));
    assert!(generators.commit(&coeffs, &blind).equals(&expected));
    // Fewer coefficients than generators are committed to as they are.
    let short = vec![Scalar::from_u64(2)];
    let expected_short = h.mul(&blind).add(&g[0].mul(&short[0]));
    assert!(generators.commit(&short, &blind).equals(&expected_short));
}

#[test]
fn a_multiple_is_the_point_added_so_many_times_to_the_identity() {
    let p = hashed(3);
    let mut sum = Point::identity();
    for k in 0..6u64 {
        assert!(p.mul(&Scalar::from_u64(k)).equals(&sum));
        sum = sum.add(&p);
    }
}

#[test]
fn the_group_has_the_order_of_the_circuit_field() {
    // One less than the order, and the point once more.
    let p = hashed(4);
    let last = Scalar::zero().sub(&Scalar::one());
    assert!(p.mul(&last).add(&p).equals(&Point::identity()));
    assert!(!p.mul(&last).equals(&Point::identity()));
    // Multiples go by the residues of the scalars.
    let j = Scalar::from_u64(11);
    assert!(p.mul(&last.add(&j)).equals(&p.mul(&Scalar::from_u64(10))));
    assert!(p.mul(&j).mul(&last).equals(&p.mul(&j.mul(&last))));
}

#[test]
fn generators_are_points_of_the_curve() {
    let generators = Generators::new(vec![hashed(10), hashed(11)], hashed(13));
    generators.are_on_curve();
    assert_eq!(generators.len(), 2);
}
