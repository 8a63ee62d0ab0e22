use ragu_pcd::error::Error;
use ragu_pcd::field::Scalar;
use ragu_pcd::step::Encoded;
use ragu_pcd::step::Header;
use ragu_pcd::step::Index;
use ragu_pcd::step::InternalStepIndex;
use ragu_pcd::step::Step;
use ragu_pcd::step::Suffix;
use ragu_pcd::step::Trivial;

const HEADER_SIZE: usize = 4;

struct SingleHeader;

impl Header for SingleHeader {
    type Data = Scalar;

    fn suffix() -> Suffix {
        Suffix::new(100).expect("a small suffix")
    }

    fn encode(data: &Scalar) -> Vec<Scalar> {
        vec![*data]
    }
}

struct PairHeader;

impl Header for PairHeader {
    type Data = (Scalar, Scalar);

    fn suffix() -> Suffix {
        Suffix::new(101).expect("a small suffix")
    }

    fn encode(data: &(Scalar, Scalar)) -> Vec<Scalar> {
        vec![data.0, data.1]
    }
}

struct WideHeader;

impl Header for WideHeader {
    type Data = ();

    fn suffix() -> Suffix {
        Suffix::new(102).expect("a small suffix")
    }

    fn encode(_data: &()) -> Vec<Scalar> {
        (0..4).map(Scalar::from_u64).collect()
    }
}

#[test]
fn encoded_new_produces_header_size_output() {
    let witness = Scalar::from_u64(42);
    let encoded = Encoded::new::<SingleHeader>(&witness);

    let mut buf = vec![];
    encoded.write(HEADER_SIZE, &mut buf).expect("write should succeed");

    assert_eq!(buf.len(), HEADER_SIZE);
}

#[test]
fn encoded_new_uniform_produces_header_size_output() {
    let witness = Scalar::from_u64(42);
    let encoded = Encoded::new_uniform::<SingleHeader>(&witness, HEADER_SIZE)
        .expect("encoding should succeed");

    let mut buf = vec![];
    encoded.write(HEADER_SIZE, &mut buf).expect("write should succeed");

    assert_eq!(buf.len(), HEADER_SIZE);
}

#[test]
fn encoded_as_gadget_returns_inner_value() {
    let witness = Scalar::from_u64(99);
    let encoded = Encoded::new::<SingleHeader>(&witness);

    let gadget = encoded.as_gadget();
    assert!(gadget[0].equals(&Scalar::from_u64(99)));
    assert_eq!(gadget.len(), 1);
}

#[test]
fn encoded_write_includes_suffix() {
    let witness = Scalar::from_u64(1);
    let encoded = Encoded::new::<SingleHeader>(&witness);

    let mut buf = vec![];
    encoded.write(HEADER_SIZE, &mut buf).expect("write should succeed");

    // Suffix is at the last position: 100 (app suffix) + 2 (internal offset) = 102
    assert!(buf[HEADER_SIZE - 1].equals(&Scalar::from_u64(102)));
    assert!(buf[0].equals(&Scalar::from_u64(1)));
    assert!(buf[1].is_zero());
    assert!(buf[2].is_zero());
}

#[test]
fn encoded_uniform_different_headers_same_size() {
    let single = Encoded::new_uniform::<SingleHeader>(&Scalar::from_u64(1), HEADER_SIZE)
        .expect("single encoding should succeed");

    let pair = Encoded::new_uniform::<PairHeader>(
        &(Scalar::from_u64(2), Scalar::from_u64(3)),
        HEADER_SIZE,
    )
    .expect("pair encoding should succeed");

    let trivial =
        Encoded::new_uniform::<()>(&(), HEADER_SIZE).expect("trivial encoding should succeed");

    let mut buf_single = vec![];
    let mut buf_pair = vec![];
    let mut buf_trivial = vec![];

    single.write(HEADER_SIZE, &mut buf_single).unwrap();
    pair.write(HEADER_SIZE, &mut buf_pair).unwrap();
    trivial.write(HEADER_SIZE, &mut buf_trivial).unwrap();

    // All produce same size regardless of header type
    assert_eq!(buf_single.len(), HEADER_SIZE);
    assert_eq!(buf_pair.len(), HEADER_SIZE);
    assert_eq!(buf_trivial.len(), HEADER_SIZE);
}

#[test]
fn encoded_clone_preserves_values() {
    let witness = Scalar::from_u64(77);
    let encoded = Encoded::new::<SingleHeader>(&witness);
    let cloned = encoded.clone();

    let mut buf_orig = vec![];
    let mut buf_clone = vec![];
    encoded.write(HEADER_SIZE, &mut buf_orig).unwrap();
    cloned.write(HEADER_SIZE, &mut buf_clone).unwrap();

    assert_eq!(buf_orig.len(), buf_clone.len());
    for (a, b) in buf_orig.iter().zip(buf_clone.iter()) {
        assert!(a.equals(b));
    }
}

#[test]
fn uniform_and_gadget_encodings_write_the_same_elements() {
    let data = (Scalar::from_u64(2), Scalar::from_u64(3));
    let gadget = Encoded::new::<PairHeader>(&data);
    let uniform = Encoded::new_uniform::<PairHeader>(&data, HEADER_SIZE).unwrap();
    let mut from_gadget = vec![Scalar::from_u64(9)];
    let mut from_uniform = vec![Scalar::from_u64(9)];
    gadget.write(HEADER_SIZE, &mut from_gadget).unwrap();
    uniform.write(HEADER_SIZE, &mut from_uniform).unwrap();
    assert_eq!(from_gadget.len(), HEADER_SIZE + 1);
    let expected = [9u64, 2, 3, 0, 103];
    for ((a, b), e) in from_gadget.iter().zip(from_uniform.iter()).zip(expected.iter()) {
        assert!(a.equals(b));
        assert!(a.equals(&Scalar::from_u64(*e)));
    }
}

#[test]
fn a_header_that_leaves_no_room_for_the_suffix_is_refused() {
    let encoded = Encoded::new::<WideHeader>(&());
    let mut buf = vec![Scalar::from_u64(9)];
    match encoded.write(HEADER_SIZE, &mut buf) {
        Err(e) => assert_eq!(e, Error::LengthMismatch),
        Ok(()) => panic!("four elements and a suffix do not fit into four places"),
    }
    assert_eq!(buf.len(), 1);
    assert!(encoded.write(HEADER_SIZE + 1, &mut buf).is_ok());
    match Encoded::new_uniform::<WideHeader>(&(), HEADER_SIZE) {
        Err(e) => assert_eq!(e, Error::LengthMismatch),
        Ok(_) => panic!("four elements and a suffix do not fit into four places"),
    }
}

#[test]
fn suffixes_of_applications_follow_the_internal_ones() {
    assert_eq!(Suffix::new(0).unwrap().value(), 2);
    assert_eq!(Suffix::new(100).unwrap().value(), 102);
    assert!(Suffix::new(u64::MAX - 1).is_none());
    assert_eq!(Suffix::internal(1).unwrap().value(), 1);
    assert!(Suffix::internal(2).is_none());
    assert_eq!(<() as Header>::suffix().value(), 0);
}

#[test]
fn the_trivial_step_encodes_three_empty_headers() {
    let step = Trivial::new();
    assert_eq!(step.index(), Index::internal(InternalStepIndex::Trivial));
    assert_eq!(Index::new(3), Index::Application(3));
    let ((left, right, output), ()) = step.witness((), &(), &()).expect("the trivial step");
    for encoded in [left, right, output] {
        let mut buf = vec![];
        encoded.write(HEADER_SIZE, &mut buf).unwrap();
        assert_eq!(buf.len(), HEADER_SIZE);
        assert!(buf.iter().all(|e| e.is_zero()));
    }
}
