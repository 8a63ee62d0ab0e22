use ragu_pcd::error::Error;
use ragu_pcd::field::Scalar;
use ragu_pcd::fold_revdot::compute_c;
use ragu_pcd::fold_revdot::compute_errors;
use ragu_pcd::fold_revdot::compute_errors_m;
use ragu_pcd::fold_revdot::compute_errors_n;
use ragu_pcd::fold_revdot::fold;
use ragu_pcd::fold_revdot::fold_polys;
use ragu_pcd::fold_revdot::fold_polys_m;
use ragu_pcd::fold_revdot::fold_polys_n;
use ragu_pcd::fold_revdot::fold_two_layer;
use ragu_pcd::fold_revdot::pad_claims;
use ragu_pcd::fold_revdot::Parameters;
use ragu_pcd::polynomials::structured;
use ragu_pcd::polynomials::structured::Wire;
use ragu_pcd::polynomials::Rank;
use rand::rngs::StdRng;
use rand::SeedableRng;

fn s(value: u64) -> Scalar {
    Scalar::from_u64(value)
}

fn rank() -> Rank {
    Rank::new(4).expect("sixteen coefficients")
}

fn random_poly(rng: &mut StdRng) -> structured::Polynomial {
    let mut poly = structured::Polynomial::new(rank());
    for gate in 0..rank().n() {
        poly.set(Wire::A, gate, Scalar::random(rng));
        poly.set(Wire::B, gate, Scalar::random(rng));
        poly.set(Wire::C, gate, Scalar::random(rng));
        poly.set(Wire::D, gate, Scalar::random(rng));
    }
    poly
}

fn random_polys(count: usize, rng: &mut StdRng) -> Vec<structured::Polynomial> {
    (0..count).map(|_| random_poly(rng)).collect()
}

#[test]
fn parameters_are_bounded() {
    assert!(Parameters::new(0, 3).is_none());
    assert!(Parameters::new(3, 0).is_none());
    // As many groups and claims as can be counted, and no more.
    let half = 1usize << (usize::BITS / 2);
    assert!(Parameters::new(half, 1).is_none());
    assert!(Parameters::new(half - 1, 1).is_some());
    assert!(Parameters::new(1, half).is_none());
    assert!(Parameters::new(1, half - 1).is_some());
    assert!(Parameters::new(usize::MAX, 2).is_none());
    assert!(Parameters::new(2, usize::MAX).is_none());
    assert!(Parameters::new(half / 2, half / 2).is_none());
    assert!(Parameters::new(257, 3).is_some());
    let params = Parameters::new(3, 5).expect("three groups of five");
    assert_eq!(params.n(), 3);
    assert_eq!(params.m(), 5);
    assert_eq!(params.num_claims(), 15);
    assert_eq!(params.error_terms_per_group(), 20);
    assert_eq!(params.num_error_terms(), 60);
}

#[test]
fn fold_weights_value_i_with_the_ith_power() {
    // 2 + 3 * 10 + 5 * 100
    let values = vec![s(2), s(3), s(5)];
    assert!(fold(&values, &s(10)).equals(&s(532)));
    assert!(fold(&Vec::new(), &s(10)).is_zero());
}

#[test]
fn fold_two_layer_folds_chunks_and_then_the_results() {
    let params = Parameters::new(4, 2).expect("four groups of two");
    // Chunks (1, 2), (3, 4), (5): with 10 they fold to 21, 43, 5; the
    // fourth group is padding. With 100: 21 + 4300 + 50000.
    let sources = vec![s(1), s(2), s(3), s(4), s(5)];
    assert!(fold_two_layer(&sources, &s(10), &s(100), params).equals(&s(54321)));
    // A different number of groups changes nothing but the padding.
    let fewer = Parameters::new(3, 2).expect("three groups of two");
    assert!(fold_two_layer(&sources, &s(10), &s(100), fewer).equals(&s(54321)));
    let none: Vec<Scalar> = Vec::new();
    assert!(fold_two_layer(&none, &s(10), &s(100), params).is_zero());
}

#[test]
fn zero_sources_appended_change_nothing() {
    let params = Parameters::new(4, 2).expect("four groups of two");
    let sources = vec![s(1), s(2), s(3), s(4), s(5)];
    let folded = fold_two_layer(&sources, &s(10), &s(100), params);
    // The last chunk filled up, a whole chunk of zeros, and more chunks
    // than there are groups.
    for zeros in [1usize, 2, 3, 4, 7] {
        let mut longer = sources.clone();
        longer.extend((0..zeros).map(|_| Scalar::zero()));
        assert!(fold_two_layer(&longer, &s(10), &s(100), params).equals(&folded));
    }
    // A source that is not zero does change it.
    let mut other = sources.clone();
    other.push(s(6));
    assert!(fold_two_layer(&other, &s(10), &s(100), params).equals(&s(54321 + 60 * 10000)));
}

#[test]
fn fold_polys_is_the_weighted_sum() {
    let mut rng = StdRng::seed_from_u64(1);
    let polys = random_polys(3, &mut rng);
    let scale = Scalar::random(&mut rng);
    let folded = fold_polys(&polys, &scale, rank());
    let x = Scalar::random(&mut rng);
    let expected = polys[0]
        .eval(&x)
        .add(&scale.mul(&polys[1].eval(&x)))
        .add(&scale.pow(2).mul(&polys[2].eval(&x)));
    assert!(folded.eval(&x).equals(&expected));
    let empty: Vec<structured::Polynomial> = Vec::new();
    assert!(fold_polys(&empty, &scale, rank()).eval(&x).is_zero());
}

#[test]
fn error_terms_are_the_products_off_the_diagonal_in_row_order() {
    let mut rng = StdRng::seed_from_u64(2);
    let a = random_polys(3, &mut rng);
    let b = random_polys(3, &mut rng);
    let errors = compute_errors(&a, &b, rank());
    assert_eq!(errors.len(), 6);
    let expected =
        [(0usize, 1usize), (0, 2), (1, 0), (1, 2), (2, 0), (2, 1)];
    for (e, (i, j)) in errors.iter().zip(expected.iter()) {
        assert!(e.equals(&a[*i].revdot(&b[*j])));
    }
}

#[test]
fn compute_c_weights_the_matrix_of_claims() {
    // m = 2: rows (k0, e01), (e10, k1); c = k0 + munu * e01 + mu^-1 * (e10 + munu * k1).
    let mu = s(4);
    let nu = s(3);
    let ky = vec![s(5), s(7)];
    let errors = vec![s(11), s(13)];
    let c = compute_c(&mu, &nu, &errors, &ky).expect("mu is not zero");
    let mu_inv = mu.invert().unwrap();
    let munu = s(12);
    let expected = s(5)
        .add(&munu.mul(&s(11)))
        .add(&mu_inv.mul(&s(13).add(&munu.mul(&s(7)))));
    assert!(c.equals(&expected));
}

#[test]
fn compute_c_refuses_a_zero_challenge_and_wrong_lengths() {
    let ky = vec![s(5), s(7)];
    let errors = vec![s(11), s(13)];
    match compute_c(&s(0), &s(3), &errors, &ky) {
        Err(e) => assert_eq!(e, Error::DomainPointInvalid),
        Ok(_) => panic!("zero has no inverse"),
    }
    match compute_c(&s(4), &s(3), &vec![s(11)], &ky) {
        Err(e) => assert_eq!(e, Error::LengthMismatch),
        Ok(_) => panic!("two claims have two error terms"),
    }
    match compute_c(&s(0), &s(3), &vec![s(11)], &ky) {
        Err(e) => assert_eq!(e, Error::LengthMismatch),
        Ok(_) => panic!("two claims have two error terms"),
    }
}

#[test]
fn one_layer_of_the_reduction_is_exact() {
    let mut rng = StdRng::seed_from_u64(3);
    let a = random_polys(3, &mut rng);
    let b = random_polys(3, &mut rng);
    let mu = Scalar::random(&mut rng);
    let nu = Scalar::random(&mut rng);
    let errors = compute_errors(&a, &b, rank());
    let ky: Vec<Scalar> = (0..3).map(|i| a[i].revdot(&b[i])).collect();
    let c = compute_c(&mu, &nu, &errors, &ky).expect("mu is not zero");
    let folded_a = fold_polys(&a, &mu.invert().unwrap(), rank());
    let folded_b = fold_polys(&b, &mu.mul(&nu), rank());
    assert!(folded_a.revdot(&folded_b).equals(&c));
}

#[test]
fn two_layers_with_zero_padding_are_exact() {
    // Seven claims in three groups of three: the last group holds one claim
    // and two zero polynomials.
    let mut rng = StdRng::seed_from_u64(4);
    let params = Parameters::new(3, 3).expect("three groups of three");
    let a = pad_claims(random_polys(7, &mut rng), params, rank()).expect("seven fit into nine");
    let b = pad_claims(random_polys(7, &mut rng), params, rank()).expect("seven fit into nine");
    assert_eq!(a.len(), 9);
    let mu = Scalar::random(&mut rng);
    let nu = Scalar::random(&mut rng);
    let mu_prime = Scalar::random(&mut rng);
    let nu_prime = Scalar::random(&mut rng);

    // First layer.
    let errors_m = compute_errors_m(&a, &b, params, rank());
    assert_eq!(errors_m.len(), 3);
    let mut collapsed = Vec::new();
    for g in 0..3 {
        let ky: Vec<Scalar> = (0..3).map(|i| a[3 * g + i].revdot(&b[3 * g + i])).collect();
        collapsed.push(compute_c(&mu, &nu, &errors_m[g], &ky).expect("mu is not zero"));
    }
    // Padding contributes zero error terms: in the last group only the
    // claim that is there has a product that need not vanish.
    assert!(errors_m[2].iter().all(|e| e.is_zero()));
    assert!(!errors_m[0].iter().any(|e| e.is_zero()));
    let folded_a = fold_polys_m(&a, &mu.invert().unwrap(), params, rank());
    let folded_b = fold_polys_m(&b, &mu.mul(&nu), params, rank());
    for g in 0..3 {
        assert!(folded_a[g].revdot(&folded_b[g]).equals(&collapsed[g]));
    }

    // Second layer.
    let errors_n = compute_errors_n(&folded_a, &folded_b, params, rank());
    let c = compute_c(&mu_prime, &nu_prime, &errors_n, &collapsed).expect("mu' is not zero");
    let final_a = fold_polys_n(&folded_a, &mu_prime.invert().unwrap(), params, rank());
    let final_b = fold_polys_n(&folded_b, &mu_prime.mul(&nu_prime), params, rank());
    assert!(final_a.revdot(&final_b).equals(&c));
    assert!(!c.is_zero());
}

#[test]
fn pad_claims_refuses_more_claims_than_the_parameters_hold() {
    let mut rng = StdRng::seed_from_u64(5);
    let params = Parameters::new(2, 2).expect("two groups of two");
    match pad_claims(random_polys(5, &mut rng), params, rank()) {
        Err(e) => assert_eq!(e, Error::LengthMismatch),
        Ok(_) => panic!("five claims do not fit into four"),
    }
    let exact = pad_claims(random_polys(4, &mut rng), params, rank()).expect("four fit");
    assert_eq!(exact.len(), 4);
}
