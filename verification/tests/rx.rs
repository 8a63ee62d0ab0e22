use ragu_pcd::error::Error;
use ragu_pcd::field::Scalar;
use ragu_pcd::polynomials::structured::Wire;
use ragu_pcd::polynomials::Rank;
use ragu_pcd::rx::eval;
use ragu_pcd::rx::Circuit;
use ragu_pcd::rx::Evaluator;
use ragu_pcd::rx::Key;
use ragu_pcd::rx::Trace;

struct SquareCircuit {
    times: usize,
}

impl Circuit for SquareCircuit {
    type Witness = Scalar;
    type Aux = Scalar;

    fn witness(&self, dr: &mut Evaluator, witness: Scalar) -> Result<Scalar, Error> {
        let mut value = witness;
        for _ in 0..self.times {
            let square = value.mul(&value);
            dr.mul(value, value, square);
            value = square;
        }
        Ok(value)
    }
}

struct PackingCircuit;

impl Circuit for PackingCircuit {
    type Witness = ();
    type Aux = ();

    fn witness(&self, dr: &mut Evaluator, _witness: ()) -> Result<(), Error> {
        dr.alloc_value(Scalar::from_u64(3));
        dr.alloc_value(Scalar::from_u64(5));
        dr.alloc_value(Scalar::from_u64(7));
        dr.reset_scope();
        dr.alloc_value(Scalar::from_u64(11));
        Ok(())
    }
}

fn test_rank() -> Rank {
    Rank::new(7).expect("a rank of 32 gates")
}

#[test]
fn test_rx() {
    let circuit = SquareCircuit { times: 10 };
    let witness = Scalar::from_u64(3);
    let (trace, _aux) = eval(&circuit, witness).unwrap();
    let rx = trace.assemble_trivial(test_rank()).unwrap();
    let mut coeffs = rx.coefficients();
    let size_of_vec = coeffs.len() / 4;
    let c = coeffs.drain(..size_of_vec).collect::<Vec<_>>();
    let b = coeffs.drain(..size_of_vec).rev().collect::<Vec<_>>();
    let a = coeffs.drain(..size_of_vec).collect::<Vec<_>>();
    let d = coeffs.drain(..size_of_vec).rev().collect::<Vec<_>>();
    for i in 0..size_of_vec {
        assert!(a[i].mul(&b[i]).equals(&c[i]));
        assert!(d[i].equals(&Scalar::zero()));
    }
}

#[test]
fn the_trace_records_gates_in_order() {
    let circuit = SquareCircuit { times: 3 };
    let (trace, aux) = eval(&circuit, Scalar::from_u64(2)).unwrap();
    assert!(aux.equals(&Scalar::from_u64(256)));
    assert_eq!(trace.len(), 4);
    let rx = trace.assemble_trivial(test_rank()).unwrap();
    assert!(rx.get(Wire::A, 1).equals(&Scalar::from_u64(2)));
    assert!(rx.get(Wire::C, 1).equals(&Scalar::from_u64(4)));
    assert!(rx.get(Wire::A, 3).equals(&Scalar::from_u64(16)));
    assert!(rx.get(Wire::C, 3).equals(&Scalar::from_u64(256)));
    assert!(rx.get(Wire::A, 4).is_zero());
}

#[test]
fn the_key_goes_into_gate_zero() {
    let trace = Trace::new();
    let key = Key::new(Scalar::from_u64(5)).expect("five is not zero");
    let rx = trace.assemble_with_key(&key, test_rank()).unwrap();
    assert!(rx.get(Wire::A, 0).equals(&Scalar::from_u64(5)));
    assert!(rx.get(Wire::B, 0).equals(&Scalar::from_u64(5).invert().unwrap()));
    assert!(rx.get(Wire::C, 0).equals(&Scalar::one()));
    assert!(rx.get(Wire::A, 0).mul(&rx.get(Wire::B, 0)).equals(&rx.get(Wire::C, 0)));
    assert!(Key::new(Scalar::zero()).is_none());
    let trivial = Key::trivial();
    assert!(trivial.value().equals(&Scalar::one()));
    assert!(trivial.inverse().equals(&Scalar::one()));
}

#[test]
fn two_allocations_share_one_gate() {
    let (trace, _) = eval(&PackingCircuit, ()).unwrap();
    // Gate 0, one gate for 3 and 5, one for 7, and after the border one for 11.
    assert_eq!(trace.len(), 4);
    let rx = trace.assemble_trivial(test_rank()).unwrap();
    assert!(rx.get(Wire::A, 1).equals(&Scalar::from_u64(3)));
    assert!(rx.get(Wire::B, 1).equals(&Scalar::from_u64(5)));
    assert!(rx.get(Wire::C, 1).equals(&Scalar::from_u64(15)));
    assert!(rx.get(Wire::A, 2).equals(&Scalar::from_u64(7)));
    assert!(rx.get(Wire::B, 2).is_zero());
    assert!(rx.get(Wire::C, 2).is_zero());
    assert!(rx.get(Wire::A, 3).equals(&Scalar::from_u64(11)));
    assert!(rx.get(Wire::B, 3).is_zero());
}

#[test]
fn a_trace_with_too_many_gates_is_refused() {
    let rank = Rank::new(3).expect("a rank of two gates");
    let fits = SquareCircuit { times: 1 };
    let (trace, _) = eval(&fits, Scalar::from_u64(2)).unwrap();
    assert!(trace.assemble_trivial(rank).is_ok());
    let too_large = SquareCircuit { times: 2 };
    let (trace, _) = eval(&too_large, Scalar::from_u64(2)).unwrap();
    match trace.assemble_trivial(rank) {
        Err(e) => assert_eq!(e, Error::MultiplicationBoundExceeded(2)),
        Ok(_) => panic!("three gates do not fit into two"),
    }
}
