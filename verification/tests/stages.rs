use ragu_pcd::circuits::stages::error_m;
use ragu_pcd::circuits::stages::error_n;
use ragu_pcd::circuits::stages::query;
use ragu_pcd::circuits::stages::query::Queries;
use ragu_pcd::error::Error;
use ragu_pcd::field::Scalar;
use ragu_pcd::fold_revdot::Parameters;
use ragu_pcd::nested::NestedPoint;
use ragu_pcd::polynomials::staging::StagingCircuit;
use ragu_pcd::polynomials::structured::Wire;
use ragu_pcd::polynomials::Rank;

fn s(value: u64) -> Scalar {
    Scalar::from_u64(value)
}

fn rank() -> Rank {
    Rank::new(7).expect("a rank of 32 gates")
}

fn query_witness(queries: usize) -> query::Witness {
    query::Witness {
        x: s(9),
        nested_s_commitment: NestedPoint::new(s(10), s(11)),
        queries: (0..queries as u64).map(|i| s(20 + i)).collect(),
    }
}

#[test]
fn the_query_stage_holds_eight_values() {
    assert_eq!(Queries::len(), 5);
    assert_eq!(query::Stage::values(), 8);
    let output = query::Stage::witness(&query_witness(5)).expect("five queries");
    let values = query::Stage::stage_values(&output);
    let expected = [9u64, 10, 11, 20, 21, 22, 23, 24];
    assert_eq!(values.len(), 8);
    for (v, e) in values.iter().zip(expected.iter()) {
        assert!(v.equals(&s(*e)));
    }
    for wrong in [0usize, 4, 6] {
        match query::Stage::witness(&query_witness(wrong)) {
            Err(e) => assert_eq!(e, Error::LengthMismatch),
            Ok(_) => panic!("the stage holds five queries"),
        }
    }
}

#[test]
fn the_query_stage_is_laid_out_after_its_parent() {
    let parent = StagingCircuit::root(6);
    let rx = query::Stage::rx(&query_witness(5), &parent, rank()).expect("the trace");
    // Gate 0, three gates of the parent, then four gates of the stage.
    for gate in 0..4 {
        assert!(rx.get(Wire::A, gate).is_zero());
    }
    assert!(rx.get(Wire::A, 4).equals(&s(9)));
    assert!(rx.get(Wire::B, 4).equals(&s(10)));
    assert!(rx.get(Wire::C, 4).equals(&s(90)));
    assert!(rx.get(Wire::A, 7).equals(&s(23)));
    assert!(rx.get(Wire::B, 7).equals(&s(24)));
    assert!(rx.get(Wire::A, 8).is_zero());
    // 27 gates of a parent, gate 0 and the four of the stage are all 32.
    assert!(query::Stage::rx(&query_witness(5), &StagingCircuit::root(54), rank()).is_ok());
    match query::Stage::rx(&query_witness(5), &StagingCircuit::root(55), rank()) {
        Err(e) => assert_eq!(e, Error::MultiplicationBoundExceeded(32)),
        Ok(_) => panic!("33 gates do not fit into 32"),
    }
    match query::Stage::rx(&query_witness(4), &StagingCircuit::root(55), rank()) {
        Err(e) => assert_eq!(e, Error::LengthMismatch),
        Ok(_) => panic!("the stage holds five queries"),
    }
}

#[test]
fn the_error_m_stage_holds_the_error_terms_group_by_group() {
    let params = Parameters::new(2, 3).expect("two groups of three");
    assert_eq!(error_m::Stage::values(params), 3 + 2 * 6);
    let witness = error_m::Witness {
        z: s(1),
        nested_s_doubleprime_commitment: NestedPoint::new(s(2), s(3)),
        error_terms: vec![(10..16).map(s).collect(), (20..26).map(s).collect()],
    };
    let output = error_m::Stage::witness(&witness, params).expect("two groups of six terms");
    let values = error_m::Stage::stage_values(&output);
    let expected = [1u64, 2, 3, 10, 11, 12, 13, 14, 15, 20, 21, 22, 23, 24, 25];
    assert_eq!(values.len(), expected.len());
    for (v, e) in values.iter().zip(expected.iter()) {
        assert!(v.equals(&s(*e)));
    }
    let rx = error_m::Stage::rx(&witness, params, &StagingCircuit::root(0), rank()).unwrap();
    assert!(rx.get(Wire::A, 1).equals(&s(1)));
    assert!(rx.get(Wire::B, 1).equals(&s(2)));
    assert!(rx.get(Wire::A, 8).equals(&s(25)));
    assert!(rx.get(Wire::B, 8).is_zero());

    let short = error_m::Witness {
        z: s(1),
        nested_s_doubleprime_commitment: NestedPoint::new(s(2), s(3)),
        error_terms: vec![(10..16).map(s).collect(), (20..25).map(s).collect()],
    };
    match error_m::Stage::witness(&short, params) {
        Err(e) => assert_eq!(e, Error::LengthMismatch),
        Ok(_) => panic!("the second group lacks a term"),
    }
    let one_group = error_m::Witness {
        z: s(1),
        nested_s_doubleprime_commitment: NestedPoint::new(s(2), s(3)),
        error_terms: vec![(10..16).map(s).collect()],
    };
    match error_m::Stage::rx(&one_group, params, &StagingCircuit::root(0), rank()) {
        Err(e) => assert_eq!(e, Error::LengthMismatch),
        Ok(_) => panic!("a group is missing"),
    }
}

#[test]
fn the_error_n_stage_holds_terms_collapsed_values_and_state() {
    let params = Parameters::new(3, 2).expect("three groups of two");
    let witness = error_n::Witness {
        error_terms: (1..7).map(s).collect(),
        collapsed: (10..13).map(s).collect(),
        sponge_state: vec![s(20), s(21)],
    };
    let values = error_n::Stage::stage_values(&witness);
    let expected = [1u64, 2, 3, 4, 5, 6, 10, 11, 12, 20, 21];
    assert_eq!(values.len(), expected.len());
    for (v, e) in values.iter().zip(expected.iter()) {
        assert!(v.equals(&s(*e)));
    }
    let rx = error_n::Stage::rx(&witness, params, &StagingCircuit::root(2), rank()).unwrap();
    assert!(rx.get(Wire::A, 2).equals(&s(1)));
    assert!(rx.get(Wire::A, 7).equals(&s(21)));
    assert!(rx.get(Wire::B, 7).is_zero());
    let wrong = error_n::Witness {
        error_terms: (1..6).map(s).collect(),
        collapsed: (10..13).map(s).collect(),
        sponge_state: vec![],
    };
    match error_n::Stage::rx(&wrong, params, &StagingCircuit::root(2), rank()) {
        Err(e) => assert_eq!(e, Error::LengthMismatch),
        Ok(_) => panic!("three groups have six error terms"),
    }
}
