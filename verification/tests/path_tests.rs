use toposhield::path::ensure_reduced_path;
use toposhield::path::is_cancelling_pair;
use toposhield::path::reduce_path;
use toposhield::path::PATH_LENGTH;

fn has_cancelling_pair(path: &[u8], genus: u8) -> bool {
    path.windows(2).any(|w| is_cancelling_pair(w[0], w[1], genus))
}

fn normalized(path: &[u8], genus: u8) -> Vec<u8> {
    let mut word = path.to_vec();
    ensure_reduced_path(&mut word, genus);
    word
}

#[test]
fn generator_then_inverse_reduces_to_empty() {
    for genus in [2u8, 5, 63] {
        let g2 = 2 * genus;
        assert_eq!(reduce_path(&[0, g2], genus), Vec::<u8>::new());
        assert_eq!(reduce_path(&[g2, 0], genus), Vec::<u8>::new());
        assert_eq!(reduce_path(&[g2 - 1, 2 * g2 - 1], genus), Vec::<u8>::new());
    }
}

#[test]
fn cancelling_pairs_for_genus_five() {
    assert!(is_cancelling_pair(0, 10, 5));
    assert!(is_cancelling_pair(10, 0, 5));
    assert!(is_cancelling_pair(9, 19, 5));
    assert!(is_cancelling_pair(19, 9, 5));
    assert!(!is_cancelling_pair(0, 0, 5));
    assert!(!is_cancelling_pair(0, 11, 5));
    assert!(!is_cancelling_pair(10, 20, 5));
    assert!(!is_cancelling_pair(20, 10, 5));
    assert!(!is_cancelling_pair(4, 5, 5));
}

#[test]
fn reduction_cascades() {
    // 3 (4 14) 13 : the inner pair goes, then the outer one
    assert_eq!(reduce_path(&[3, 4, 14, 13], 5), Vec::<u8>::new());
    assert_eq!(reduce_path(&[1, 3, 4, 14, 13, 2], 5), vec![1, 2]);
    assert_eq!(reduce_path(&[1, 2, 3], 5), vec![1, 2, 3]);
    assert_eq!(reduce_path(&[0, 10, 0, 10, 7], 5), vec![7]);
    assert_eq!(reduce_path(&[], 5), Vec::<u8>::new());
}

#[test]
fn reduction_keeps_indices_that_name_nothing() {
    assert_eq!(reduce_path(&[200, 210], 5), vec![200, 210]);
}

#[test]
fn empty_path_is_padded_from_index_zero() {
    let expected: Vec<u8> = (1..=20).map(|i| (i % 20) as u8).collect();
    assert_eq!(normalized(&[], 5), expected);
    assert_eq!(normalized(&[0, 10], 5), expected);
}

#[test]
fn short_path_is_padded_after_its_last_index() {
    let out = normalized(&[18], 5);
    assert_eq!(out.len(), PATH_LENGTH);
    assert_eq!(&out[..4], &[18, 19, 0, 1]);
    assert_eq!(out[19], 17);
}

#[test]
fn padding_wraps_at_four_times_the_genus() {
    let out = normalized(&[7], 2);
    assert_eq!(&out[..4], &[7, 0, 1, 2]);
    assert_eq!(out.len(), PATH_LENGTH);
    assert!(out.iter().all(|&x| x < 8));
}

#[test]
fn long_path_is_cut() {
    let long: Vec<u8> = (0..30).map(|i| (i % 5) as u8).collect();
    let out = normalized(&long, 5);
    assert_eq!(out, long[..20].to_vec());
}

#[test]
fn full_length_reduced_path_is_unchanged() {
    let path: Vec<u8> = (0..20).collect();
    assert_eq!(normalized(&path, 5), path);
}

#[test]
fn normalize_is_idempotent() {
    let samples: [&[u8]; 6] = [
        &[],
        &[0, 10],
        &[5, 15, 5, 15, 3],
        &[19, 9, 9, 19, 0, 1, 2, 12, 11, 10],
        &[1, 2, 3, 4, 5, 6, 7, 8, 9, 10, 11, 12, 13, 14, 15, 16, 17, 18, 19, 0, 1, 2],
        &[250, 3, 13],
    ];
    for sample in samples {
        let once = normalized(sample, 5);
        let twice = normalized(&once, 5);
        assert_eq!(once, twice);
        assert_eq!(once.len(), PATH_LENGTH);
        assert!(!has_cancelling_pair(&once, 5));
    }
}

#[test]
fn normalize_keeps_indices_valid() {
    let out = normalized(&[19, 9, 4, 14, 7], 5);
    assert!(out.iter().all(|&x| x < 20));
    assert_eq!(&out[..3], &[7, 8, 9]);
}
