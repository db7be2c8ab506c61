use toposhield::field::FieldElement;
use toposhield::holonomy::compute_holonomy;
use toposhield::holonomy::holonomy_of_valid;
use toposhield::holonomy::path_is_valid;
use toposhield::manifold::HyperbolicManifold;
use toposhield::manifold::ManifoldError;
use toposhield::matrix::Matrix;
use toposhield::path::reduce_path;

fn fe(x: u64) -> FieldElement {
    FieldElement::from_u64(x)
}

#[test]
fn test_holonomy_reversal() {
    // Test that reversing path order gives different holonomy
    let manifold = HyperbolicManifold::new();

    // Create two paths: [0, 1] and [1, 0]
    let path1 = vec![0, 1];
    let path2 = vec![1, 0];

    let hol1 = compute_holonomy(&path1, &manifold);
    let hol2 = compute_holonomy(&path2, &manifold);

    // These should be different because matrix multiplication is not commutative
    assert_ne!(hol1, hol2, "Reversed paths should produce different holonomies");
}

#[test]
fn holonomy_multiplies_in_path_order() {
    let manifold = HyperbolicManifold::new();
    // (2 1; 1 1) (3 1; 2 1) = (8 3; 5 2)
    assert_eq!(compute_holonomy(&[0, 1], &manifold), Ok([fe(8), fe(3), fe(5), fe(2)]));
    // (3 1; 2 1) (2 1; 1 1) = (7 4; 5 3)
    assert_eq!(compute_holonomy(&[1, 0], &manifold), Ok([fe(7), fe(4), fe(5), fe(3)]));
}

#[test]
fn holonomy_of_the_empty_path_is_the_identity() {
    let manifold = HyperbolicManifold::new();
    assert_eq!(compute_holonomy(&[], &manifold), Ok([fe(1), fe(0), fe(0), fe(1)]));
}

#[test]
fn holonomy_of_a_single_index_is_its_generator() {
    let manifold = HyperbolicManifold::new();
    for idx in 0..20u8 {
        let expected = manifold.get_generator(idx as usize).unwrap().entries();
        assert_eq!(compute_holonomy(&[idx], &manifold), Ok(expected));
    }
}

#[test]
fn holonomy_of_generator_then_inverse_is_the_identity() {
    let manifold = HyperbolicManifold::new();
    for idx in 0..10u8 {
        assert_eq!(compute_holonomy(&[idx, idx + 10], &manifold), Ok(Matrix::identity().entries()));
        assert_eq!(compute_holonomy(&[idx + 10, idx], &manifold), Ok(Matrix::identity().entries()));
    }
}

#[test]
fn holonomy_rejects_an_index_that_names_nothing() {
    let manifold = HyperbolicManifold::new();
    assert_eq!(compute_holonomy(&[0, 20, 1], &manifold), Err(ManifoldError::InvalidIndex));
    assert_eq!(compute_holonomy(&[255], &manifold), Err(ManifoldError::InvalidIndex));
    assert!(path_is_valid(&[0, 19], 5));
    assert!(!path_is_valid(&[0, 20], 5));
}

#[test]
fn holonomy_has_determinant_one() {
    let manifold = HyperbolicManifold::new();
    let path = [0u8, 5, 17, 3, 3, 12, 9, 1, 14, 6, 19, 4];
    let h = Matrix::from_entries(compute_holonomy(&path, &manifold).unwrap());
    assert_eq!(h.determinant(), FieldElement::one());
    assert_ne!(h, Matrix::identity());
}

#[test]
fn holonomy_of_a_concatenation_is_the_product() {
    let manifold = HyperbolicManifold::new();
    let left = [0u8, 5, 17, 3];
    let right = [12u8, 9, 1];
    let joined = [0u8, 5, 17, 3, 12, 9, 1];
    let product = holonomy_of_valid(&left, &manifold).multiply(&holonomy_of_valid(&right, &manifold));
    assert_eq!(holonomy_of_valid(&joined, &manifold), product);
}

#[test]
fn free_reduction_keeps_the_holonomy() {
    let manifold = HyperbolicManifold::new();
    let path = [1u8, 3, 4, 14, 13, 2, 0, 10, 7];
    let reduced = reduce_path(&path, 5);
    assert_eq!(reduced, vec![1, 2, 7]);
    assert_eq!(compute_holonomy(&path, &manifold), compute_holonomy(&reduced, &manifold));
}

#[test]
fn holonomy_may_be_accumulated_from_either_end() {
    let manifold = HyperbolicManifold::new();
    let path = [3u8, 18, 0, 7, 11];
    let mut from_back = Matrix::identity();
    for &idx in path.iter().rev() {
        from_back = manifold.get_generator(idx as usize).unwrap().multiply(&from_back);
    }
    let mut from_front = Matrix::identity();
    for &idx in path.iter() {
        from_front = from_front.multiply(&manifold.get_generator(idx as usize).unwrap());
    }
    assert_eq!(from_back, from_front);
    assert_eq!(holonomy_of_valid(&path, &manifold), from_front);
}
