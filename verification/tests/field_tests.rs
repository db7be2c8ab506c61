use toposhield::encoding::word_from_le;
use toposhield::field::FieldElement;
use toposhield::matrix::Matrix;

const MODULUS_LE: [u8; 32] = [
    0x01, 0x00, 0x00, 0xf0, 0x93, 0xf5, 0xe1, 0x43, 0x91, 0x70, 0xb9, 0x79, 0x48, 0xe8, 0x33, 0x28,
    0x5d, 0x58, 0x81, 0x81, 0xb6, 0x45, 0x50, 0xb8, 0x29, 0xa0, 0x31, 0xe1, 0x72, 0x4e, 0x64, 0x30,
];

fn fe(x: u64) -> FieldElement {
    FieldElement::from_u64(x)
}

fn minus_one() -> FieldElement {
    let mut bytes = MODULUS_LE;
    bytes[0] = 0x00;
    FieldElement::from_repr(&bytes).expect("p - 1 is canonical")
}

#[test]
fn sum_of_small_elements() {
    assert_eq!(fe(2).plus(&fe(3)), fe(5));
    assert_ne!(fe(2).plus(&fe(3)), fe(2));
}

#[test]
fn sum_wraps_at_the_modulus() {
    assert_eq!(minus_one().plus(&fe(1)), FieldElement::zero());
    assert_eq!(minus_one().plus(&fe(3)), fe(2));
}

#[test]
fn difference_wraps_below_zero() {
    assert_eq!(fe(7).minus(&fe(4)), fe(3));
    assert_eq!(fe(0).minus(&fe(1)), minus_one());
}

#[test]
fn product_of_small_elements() {
    assert_eq!(fe(6).times(&fe(7)), fe(42));
    assert_eq!(minus_one().times(&minus_one()), fe(1));
    assert_eq!(fe(0x1_0000_0000).times(&fe(0x1_0000_0000)).to_repr()[..9], [
        0, 0, 0, 0, 0, 0, 0, 0, 1
    ]);
}

#[test]
fn negation_adds_to_zero() {
    assert_eq!(fe(1).negated(), minus_one());
    assert_eq!(fe(0).negated(), fe(0));
    assert_eq!(fe(5).negated().plus(&fe(5)), fe(0));
}

#[test]
fn inverse_multiplies_to_one() {
    assert_eq!(fe(0).inverted(), None);
    assert_eq!(fe(1).inverted(), Some(fe(1)));
    let inverse = fe(12345).inverted().expect("12345 is not zero");
    assert_eq!(inverse.times(&fe(12345)), fe(1));
    assert_ne!(inverse, fe(12345));
    assert_eq!(minus_one().inverted(), Some(minus_one()));
}

#[test]
fn repr_is_little_endian() {
    let mut expected = vec![0u8; 32];
    expected[0] = 0x39;
    expected[1] = 0x30;
    assert_eq!(fe(12345).to_repr(), expected);
    let wide = fe(0x0102_0304_0506_0708).to_repr();
    assert_eq!(&wide[..8], &[8, 7, 6, 5, 4, 3, 2, 1]);
    assert_eq!(wide.len(), 32);
}

#[test]
fn repr_round_trip() {
    let x = minus_one().times(&fe(0xdead_beef));
    assert_eq!(FieldElement::from_repr(&x.to_repr()), Some(x));
}

#[test]
fn from_repr_rejects_non_canonical() {
    assert_eq!(FieldElement::from_repr(&MODULUS_LE), None);
    assert_eq!(FieldElement::from_repr(&[0xff; 32]), None);
    assert_eq!(FieldElement::from_repr(&[0u8; 31]), None);
    assert_eq!(FieldElement::from_repr(&[0u8; 33]), None);
    assert_eq!(FieldElement::from_repr(&[0u8; 32]), Some(fe(0)));
}

#[test]
fn from_chunk_reads_little_endian() {
    let bytes = [0x01u8, 0x02, 0x03, 0xff];
    assert_eq!(FieldElement::from_chunk(&bytes, 0, 3), fe(0x030201));
    assert_eq!(FieldElement::from_chunk(&bytes, 1, 3), fe(0xff0302));
    assert_eq!(FieldElement::from_chunk(&bytes, 2, 0), fe(0));
    let long = [0xffu8; 31];
    let repr = FieldElement::from_chunk(&long, 0, 31).to_repr();
    assert_eq!(&repr[..31], &long[..]);
    assert_eq!(repr[31], 0);
}

#[test]
fn low_u64_is_the_first_limb() {
    assert_eq!(fe(77).low_u64(), 77);
    assert_eq!(minus_one().low_u64(), 0x43e1f593f0000000);
}

#[test]
fn word_from_le_reads_up_to_eight_bytes() {
    let bytes = [1u8, 2, 3, 4, 5, 6, 7, 8, 9];
    assert_eq!(word_from_le(&bytes, 0, 8), 0x0807060504030201);
    assert_eq!(word_from_le(&bytes, 1, 2), 0x0302);
    assert_eq!(word_from_le(&bytes, 9, 0), 0);
}

#[test]
fn zero_and_one_tests() {
    assert!(fe(0).is_zero());
    assert!(!fe(1).is_zero());
    assert!(fe(9).is_equal(&fe(9)));
    assert!(!fe(9).is_equal(&fe(8)));
    assert_eq!(FieldElement::one(), fe(1));
}

#[test]
fn matrix_product_is_rows_times_columns() {
    let x = Matrix { a: fe(1), b: fe(2), c: fe(3), d: fe(4) };
    let y = Matrix { a: fe(5), b: fe(6), c: fe(7), d: fe(8) };
    let expected = Matrix { a: fe(19), b: fe(22), c: fe(43), d: fe(50) };
    assert_eq!(x.multiply(&y), expected);
    assert!(x.multiply(&y).equals(&expected));
    assert_ne!(x.multiply(&y), y.multiply(&x));
}

#[test]
fn matrix_determinant_and_trace() {
    let x = Matrix { a: fe(2), b: fe(1), c: fe(1), d: fe(1) };
    assert_eq!(x.determinant(), fe(1));
    assert!(x.is_special());
    assert_eq!(x.trace(), fe(3));
    let y = Matrix { a: fe(1), b: fe(2), c: fe(3), d: fe(4) };
    assert_eq!(y.determinant(), fe(2).negated());
    assert!(!y.is_special());
}

#[test]
fn matrix_inverse_of_special_matrix() {
    let x = Matrix { a: fe(7), b: fe(13), c: fe(1), d: fe(2) };
    let inverse = x.invert();
    assert_eq!(inverse, Matrix { a: fe(2), b: fe(13).negated(), c: fe(1).negated(), d: fe(7) });
    assert_eq!(x.multiply(&inverse), Matrix::identity());
    assert_eq!(inverse.multiply(&x), Matrix::identity());
}

#[test]
fn matrix_commutator_of_commuting_matrices_is_identity() {
    let e = Matrix { a: fe(1), b: fe(1), c: fe(0), d: fe(1) };
    let f = Matrix { a: fe(1), b: fe(2), c: fe(0), d: fe(1) };
    assert_eq!(e.commutator(&f), Matrix::identity());
    let a = Matrix { a: fe(2), b: fe(1), c: fe(1), d: fe(1) };
    let b = Matrix { a: fe(3), b: fe(2), c: fe(1), d: fe(1) };
    assert_ne!(a.commutator(&b), Matrix::identity());
    assert_eq!(a.commutator(&b).multiply(&b.commutator(&a)), Matrix::identity());
}

#[test]
fn matrix_entries_round_trip() {
    let x = Matrix { a: fe(1), b: fe(2), c: fe(3), d: fe(4) };
    assert_eq!(x.entries(), [fe(1), fe(2), fe(3), fe(4)]);
    assert_eq!(Matrix::from_entries(x.entries()), x);
}
