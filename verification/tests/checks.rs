use ragu_pcd::circuits::compute_v::compute_axbx;
use ragu_pcd::circuits::compute_v::denominator;
use ragu_pcd::circuits::compute_v::poly_queries;
use ragu_pcd::circuits::compute_v::sum;
use ragu_pcd::circuits::compute_v::ChildPreamble;
use ragu_pcd::circuits::compute_v::ChildQueries;
use ragu_pcd::circuits::compute_v::ChildUnified;
use ragu_pcd::circuits::compute_v::Circuit;
use ragu_pcd::circuits::compute_v::Denominators;
use ragu_pcd::circuits::compute_v::FixedRegistryEvaluations;
use ragu_pcd::circuits::compute_v::InternalPoints;
use ragu_pcd::circuits::compute_v::PreambleOutput;
use ragu_pcd::circuits::compute_v::QueryOutput;
use ragu_pcd::circuits::compute_v::SourceBuilder;
use ragu_pcd::circuits::compute_v::Witness;
use ragu_pcd::circuits::ky;
use ragu_pcd::circuits::stages::error_m;
use ragu_pcd::circuits::stages::error_n;
use ragu_pcd::circuits::stages::eval;
use ragu_pcd::circuits::unified::Instance;
use ragu_pcd::error::Error;
use ragu_pcd::field::Scalar;
use ragu_pcd::fold_revdot::compute_c;
use ragu_pcd::fold_revdot::fold_two_layer;
use ragu_pcd::fold_revdot::Parameters;
use ragu_pcd::nested::NestedPoint;
use ragu_pcd::polynomials::staging::tz;
use ragu_pcd::polynomials::Rank;

fn s(value: u64) -> Scalar {
    Scalar::from_u64(value)
}

fn rank() -> Rank {
    Rank::new(4).expect("sixteen coefficients")
}

fn params() -> Parameters {
    Parameters::new(8, 3).expect("eight groups of three")
}

/// Numbers that are all different, counted up from `base`.
struct Counter {
    next: u64,
}

impl Counter {
    fn take(&mut self) -> Scalar {
        self.next += 1;
        s(self.next)
    }
}

fn child_queries(c: &mut Counter) -> ChildQueries {
    ChildQueries {
        a_poly_at_x: c.take(),
        b_poly_at_x: c.take(),
        preamble_at_x: c.take(),
        preamble_at_xz: c.take(),
        error_m_at_x: c.take(),
        error_m_at_xz: c.take(),
        error_n_at_x: c.take(),
        error_n_at_xz: c.take(),
        query_at_x: c.take(),
        query_at_xz: c.take(),
        eval_at_x: c.take(),
        eval_at_xz: c.take(),
        application_at_x: c.take(),
        application_at_xz: c.take(),
        hashes_1_at_x: c.take(),
        hashes_1_at_xz: c.take(),
        hashes_2_at_x: c.take(),
        hashes_2_at_xz: c.take(),
        partial_collapse_at_x: c.take(),
        partial_collapse_at_xz: c.take(),
        full_collapse_at_x: c.take(),
        full_collapse_at_xz: c.take(),
        compute_v_at_x: c.take(),
        compute_v_at_xz: c.take(),
        old_registry_xy_at_new_w: c.take(),
        new_registry_wy_at_old_x: c.take(),
        new_registry_xy_at_old_circuit_id: c.take(),
    }
}

fn fixed_registry(c: &mut Counter) -> FixedRegistryEvaluations {
    FixedRegistryEvaluations {
        preamble_stage: c.take(),
        error_m_stage: c.take(),
        error_n_stage: c.take(),
        query_stage: c.take(),
        eval_stage: c.take(),
        error_n_final_staged: c.take(),
        eval_final_staged: c.take(),
        hashes_1_circuit: c.take(),
        hashes_2_circuit: c.take(),
        partial_collapse_circuit: c.take(),
        full_collapse_circuit: c.take(),
        compute_v_circuit: c.take(),
    }
}

fn internal_points(c: &mut Counter) -> InternalPoints {
    InternalPoints {
        preamble_stage: c.take(),
        error_m_stage: c.take(),
        error_n_stage: c.take(),
        query_stage: c.take(),
        eval_stage: c.take(),
        error_n_final_staged: c.take(),
        eval_final_staged: c.take(),
        hashes_1_circuit: c.take(),
        hashes_2_circuit: c.take(),
        partial_collapse_circuit: c.take(),
        full_collapse_circuit: c.take(),
        compute_v_circuit: c.take(),
    }
}

fn child_preamble(c: &mut Counter, trivial: bool) -> ChildPreamble {
    ChildPreamble {
        unified: ChildUnified { u: c.take(), y: c.take(), x: c.take(), v: c.take() },
        circuit_id: c.take(),
        trivial,
    }
}

fn child_evaluations(c: &mut Counter) -> eval::ChildEvaluations {
    eval::ChildEvaluations {
        application: c.take(),
        preamble: c.take(),
        error_n: c.take(),
        error_m: c.take(),
        a_poly: c.take(),
        b_poly: c.take(),
        query: c.take(),
        registry_xy_poly: c.take(),
        eval: c.take(),
        p_poly: c.take(),
        hashes_1: c.take(),
        hashes_2: c.take(),
        partial_collapse: c.take(),
        full_collapse: c.take(),
        compute_v: c.take(),
    }
}

fn eval_output(c: &mut Counter) -> eval::Output {
    eval::Output {
        left: child_evaluations(c),
        right: child_evaluations(c),
        registry_wx0: c.take(),
        registry_wx1: c.take(),
        registry_wy: c.take(),
        a_poly: c.take(),
        b_poly: c.take(),
        registry_xy: c.take(),
    }
}

fn instance(c: &mut Counter) -> Instance {
    let point = NestedPoint::new(s(1), s(2));
    Instance {
        nested_preamble_commitment: point,
        w: c.take(),
        nested_s_prime_commitment: point,
        y: c.take(),
        z: c.take(),
        nested_error_m_commitment: point,
        mu: c.take(),
        nu: c.take(),
        nested_error_n_commitment: point,
        mu_prime: c.take(),
        nu_prime: c.take(),
        c: c.take(),
        nested_ab_commitment: point,
        x: c.take(),
        nested_query_commitment: point,
        alpha: c.take(),
        nested_f_commitment: point,
        u: c.take(),
        nested_eval_commitment: point,
        pre_beta: c.take(),
        v: c.take(),
    }
}

#[test]
fn sum_adds_up() {
    assert!(sum(&vec![s(1), s(2), s(3)]).equals(&s(6)));
    assert!(sum(&Vec::new()).is_zero());
}

#[test]
fn the_builder_gathers_one_pair_of_sources_for_each_claim() {
    let mut builder = SourceBuilder::new(s(10), s(1000));
    builder.direct(&s(1), &s(2));
    builder.application(&s(3), &s(4), &s(5));
    builder.internal(&vec![s(6), s(7)], &vec![s(8), s(9)], &s(10));
    builder.stage(&vec![s(1), s(2), s(3)], &s(11));
    let (ax, bx) = builder.build();
    let expected_ax = [1u64, 3, 13, 321];
    let expected_bx = [2u64, 1009, 1027, 11];
    assert_eq!(ax.len(), 4);
    assert_eq!(bx.len(), 4);
    for (v, e) in ax.iter().zip(expected_ax.iter()) {
        assert!(v.equals(&s(*e)));
    }
    for (v, e) in bx.iter().zip(expected_bx.iter()) {
        assert!(v.equals(&s(*e)));
    }
}

#[test]
fn compute_axbx_folds_twenty_one_claims() {
    let mut c = Counter { next: 0 };
    let query = QueryOutput {
        fixed_registry: fixed_registry(&mut c),
        left: child_queries(&mut c),
        right: child_queries(&mut c),
        registry_wxy: c.take(),
    };
    let z = s(3);
    let txz = s(1_000_000);
    let (mu_inv, mu_prime_inv, munu, mu_prime_nu_prime) = (s(5), s(7), s(11), s(13));
    let (ax, bx) =
        compute_axbx(&query, &z, &txz, &mu_inv, &mu_prime_inv, &munu, &mu_prime_nu_prime, params());

    // The same sources, gathered by hand.
    let mut builder = SourceBuilder::new(z, txz);
    builder.child(&query.fixed_registry, &query.left);
    builder.child(&query.fixed_registry, &query.right);
    let (l, r, m) = (&query.left, &query.right, &query.fixed_registry);
    builder.stage(
        &vec![
            l.hashes_1_at_x,
            l.hashes_2_at_x,
            l.partial_collapse_at_x,
            l.full_collapse_at_x,
            r.hashes_1_at_x,
            r.hashes_2_at_x,
            r.partial_collapse_at_x,
            r.full_collapse_at_x,
        ],
        &m.error_n_final_staged,
    );
    builder.stage(&vec![l.compute_v_at_x, r.compute_v_at_x], &m.eval_final_staged);
    builder.stage(&vec![l.preamble_at_x, r.preamble_at_x], &m.preamble_stage);
    builder.stage(&vec![l.error_m_at_x, r.error_m_at_x], &m.error_m_stage);
    builder.stage(&vec![l.error_n_at_x, r.error_n_at_x], &m.error_n_stage);
    builder.stage(&vec![l.query_at_x, r.query_at_x], &m.query_stage);
    builder.stage(&vec![l.eval_at_x, r.eval_at_x], &m.eval_stage);
    let (ax_sources, bx_sources) = builder.build();
    assert_eq!(ax_sources.len(), 21);
    assert_eq!(bx_sources.len(), 21);
    assert!(ax.equals(&fold_two_layer(&ax_sources, &mu_inv, &mu_prime_inv, params())));
    assert!(bx.equals(&fold_two_layer(&bx_sources, &munu, &mu_prime_nu_prime, params())));

    // The first claim of a proof is that of its folded polynomials, the
    // second that of its step.
    assert!(ax_sources[0].equals(&l.a_poly_at_x));
    assert!(bx_sources[0].equals(&l.b_poly_at_x));
    assert!(ax_sources[1].equals(&l.application_at_x));
    assert!(bx_sources[1]
        .equals(&l.application_at_xz.add(&l.new_registry_xy_at_old_circuit_id).add(&txz)));
    assert!(ax_sources[2].equals(&l.hashes_1_at_x.add(&l.preamble_at_x).add(&l.error_n_at_x)));
    assert!(ax_sources[7].equals(&r.a_poly_at_x));
    assert!(bx_sources[14].equals(&m.error_n_final_staged));
    assert!(ax_sources[15].equals(&l.compute_v_at_x.add(&z.mul(&r.compute_v_at_x))));
}

#[test]
fn denominators_need_a_point_of_evaluation_apart_from_all_points() {
    assert!(denominator(&s(5), &s(5)).is_none());
    let d = denominator(&s(7), &s(5)).expect("seven is not five");
    assert!(d.mul(&s(2)).equals(&s(1)));

    let mut c = Counter { next: 100 };
    let preamble =
        PreambleOutput {
            left: child_preamble(&mut c, false),
            right: child_preamble(&mut c, false),
        };
    let points = internal_points(&mut c);
    let (w, x, y, z) = (s(2), s(3), s(4), s(5));
    let d = Denominators::new(&s(1), &w, &x, &y, &z, &preamble, &points).expect("all apart");
    assert!(d.w.mul(&s(1).sub(&w)).equals(&s(1)));
    assert!(d.xz.mul(&s(1).sub(&s(15))).equals(&s(1)));
    assert!(d.left_u.mul(&s(1).sub(&preamble.left.unified.u)).equals(&s(1)));
    assert!(d.right_circuit_id.mul(&s(1).sub(&preamble.right.circuit_id)).equals(&s(1)));
    assert!(d.internal_eval_stage.mul(&s(1).sub(&points.eval_stage)).equals(&s(1)));
    for u in [w, x, y, s(15), preamble.left.unified.x, points.compute_v_circuit] {
        match Denominators::new(&u, &w, &x, &y, &z, &preamble, &points) {
            Err(e) => assert_eq!(e, Error::DomainPointInvalid),
            Ok(_) => panic!("the point of evaluation coincides with a point"),
        }
    }
}

#[test]
fn the_claimed_value_is_checked_against_what_the_witness_implies() {
    let mut c = Counter { next: 0 };
    let query = QueryOutput {
        fixed_registry: fixed_registry(&mut c),
        left: child_queries(&mut c),
        right: child_queries(&mut c),
        registry_wxy: c.take(),
    };
    let preamble =
        PreambleOutput {
            left: child_preamble(&mut c, false),
            right: child_preamble(&mut c, false),
        };
    let evaluations = eval_output(&mut c);
    let points = internal_points(&mut c);
    let mut inst = instance(&mut c);
    inst.u = s(1_000_003);
    let beta = s(17);
    let circuit = Circuit::new(3);
    assert_eq!(circuit.num_application_steps(), 3);

    let witness = Witness {
        unified_instance: &inst,
        preamble_witness: &preamble,
        query_witness: &query,
        eval_witness: &evaluations,
    };
    let v = circuit.compute(&witness, &beta, &points, rank(), params()).expect("all apart");

    // The same value, step by step.
    let txz = tz(rank(), &inst.z).eval(&inst.x);
    let (ax, bx) = compute_axbx(
        &query,
        &inst.z,
        &txz,
        &inst.mu.invert().unwrap(),
        &inst.mu_prime.invert().unwrap(),
        &inst.mu.mul(&inst.nu),
        &inst.mu_prime.mul(&inst.nu_prime),
        params(),
    );
    let d = Denominators::new(&inst.u, &inst.w, &inst.x, &inst.y, &inst.z, &preamble, &points)
        .expect("all apart");
    let queries = poly_queries(&evaluations, &query, &preamble, &d, &ax, &bx);
    assert_eq!(queries.len(), 76);
    assert!(queries[0].evaluation.equals(&evaluations.left.p_poly));
    assert!(queries[0].claim.equals(&preamble.left.unified.v));
    assert!(queries[0].denominator.equals(&d.left_u));
    assert!(queries[30].claim.equals(&ax));
    assert!(queries[31].claim.equals(&bx));
    assert!(queries[75].evaluation.equals(&evaluations.right.compute_v));
    assert!(queries[75].claim.equals(&query.right.compute_v_at_xz));
    assert!(queries[75].denominator.equals(&d.xz));
    let mut fu = Scalar::zero();
    for q in &queries {
        fu = fu.mul(&inst.alpha).add(&q.evaluation.sub(&q.claim).mul(&q.denominator));
    }
    let mut expected = fu;
    for value in eval::Stage::stage_values(&evaluations) {
        expected = expected.mul(&beta).add(&value);
    }
    assert!(v.equals(&expected));

    // The claimed value is accepted exactly when it is that value.
    assert!(!circuit.check(&witness, &beta, &points, rank(), params()).unwrap());
    let mut right = inst;
    right.v = v;
    let accepted = Witness {
        unified_instance: &right,
        preamble_witness: &preamble,
        query_witness: &query,
        eval_witness: &evaluations,
    };
    assert!(circuit.check(&accepted, &beta, &points, rank(), params()).unwrap());

    // Where neither proof was made by a fusion, any value is accepted.
    let base =
        PreambleOutput { left: child_preamble(&mut c, true), right: child_preamble(&mut c, true) };
    assert!(base.is_base_case());
    let base_case = Witness {
        unified_instance: &inst,
        preamble_witness: &base,
        query_witness: &query,
        eval_witness: &evaluations,
    };
    assert!(circuit.check(&base_case, &beta, &points, rank(), params()).unwrap());

    // A challenge that is zero, or a point of evaluation that is one of the
    // points, is refused.
    let mut zero_mu = inst;
    zero_mu.mu = Scalar::zero();
    let refused = Witness {
        unified_instance: &zero_mu,
        preamble_witness: &preamble,
        query_witness: &query,
        eval_witness: &evaluations,
    };
    match circuit.compute(&refused, &beta, &points, rank(), params()) {
        Err(e) => assert_eq!(e, Error::DomainPointInvalid),
        Ok(_) => panic!("zero has no inverse"),
    }
    let mut at_w = inst;
    at_w.u = inst.w;
    let refused = Witness {
        unified_instance: &at_w,
        preamble_witness: &preamble,
        query_witness: &query,
        eval_witness: &evaluations,
    };
    match circuit.check(&refused, &beta, &points, rank(), params()) {
        Err(e) => assert_eq!(e, Error::DomainPointInvalid),
        Ok(_) => panic!("no quotient can be formed at w"),
    }
}

#[test]
fn roots_of_unity_are_told_by_squaring() {
    assert!(ky::is_root_of_unity(&s(1), 0));
    assert!(!ky::is_root_of_unity(&s(2), 0));
    let minus_one = s(1).neg();
    assert!(!ky::is_root_of_unity(&minus_one, 0));
    assert!(ky::is_root_of_unity(&minus_one, 1));
    assert!(ky::is_root_of_unity(&minus_one, 5));
    assert!(!ky::is_root_of_unity(&s(2), 5));
}

#[test]
fn the_first_layer_is_checked_group_by_group() {
    let params = Parameters::new(2, 2).expect("two groups of two");
    let mut c = Counter { next: 0 };
    let mut inst = instance(&mut c);
    inst.mu = s(4);
    inst.nu = s(3);
    let mut preamble =
        PreambleOutput {
            left: child_preamble(&mut c, false),
            right: child_preamble(&mut c, false),
        };
    preamble.left.circuit_id = s(1);
    preamble.right.circuit_id = s(1).neg();
    let error_terms = vec![vec![s(11), s(13)], vec![s(17), s(19)]];
    let ky_values = vec![vec![s(5), s(7)], vec![s(23), s(29)]];
    let collapsed: Vec<Scalar> = (0..2)
        .map(|g| compute_c(&inst.mu, &inst.nu, &error_terms[g], &ky_values[g]).unwrap())
        .collect();
    let error_m_output = error_m::Output {
        z: s(1),
        nested_s_doubleprime_commitment: NestedPoint::new(s(2), s(3)),
        error_terms: error_terms.clone(),
    };
    let error_n_witness =
        error_n::Witness { error_terms: vec![s(1), s(2)], collapsed, sponge_state: vec![] };
    let circuit = ky::Circuit::new(1);
    let witness = ky::Witness {
        unified_instance: &inst,
        preamble_witness: &preamble,
        error_m_witness: &error_m_output,
        error_n_witness: &error_n_witness,
        ky_values: &ky_values,
    };
    assert!(circuit.check(&witness, params).unwrap());

    // A point that is not in the domain of circuits.
    assert!(!ky::Circuit::new(0).check(&witness, params).unwrap());

    // A claimed value that was tampered with.
    let tampered = vec![vec![s(5), s(8)], vec![s(23), s(29)]];
    let witness = ky::Witness {
        unified_instance: &inst,
        preamble_witness: &preamble,
        error_m_witness: &error_m_output,
        error_n_witness: &error_n_witness,
        ky_values: &tampered,
    };
    assert!(!circuit.check(&witness, params).unwrap());

    // A witness of the wrong shape, and a challenge that is zero.
    let short = vec![vec![s(5), s(7)]];
    let witness = ky::Witness {
        unified_instance: &inst,
        preamble_witness: &preamble,
        error_m_witness: &error_m_output,
        error_n_witness: &error_n_witness,
        ky_values: &short,
    };
    match circuit.check(&witness, params) {
        Err(e) => assert_eq!(e, Error::LengthMismatch),
        Ok(_) => panic!("a group is missing"),
    }
    let mut zero_mu = inst;
    zero_mu.mu = Scalar::zero();
    let witness = ky::Witness {
        unified_instance: &zero_mu,
        preamble_witness: &preamble,
        error_m_witness: &error_m_output,
        error_n_witness: &error_n_witness,
        ky_values: &ky_values,
    };
    match circuit.check(&witness, params) {
        Err(e) => assert_eq!(e, Error::DomainPointInvalid),
        Ok(_) => panic!("zero has no inverse"),
    }
}
