use toposhield::field::FieldElement;
use toposhield::holonomy::compute_holonomy;
use toposhield::manifold::draw_candidate_matrices;
use toposhield::manifold::generators_valid;
use toposhield::manifold::relator_product;
use toposhield::manifold::search_final_pair;
use toposhield::manifold::solve_for_commutator;
use toposhield::manifold::HyperbolicManifold;
use toposhield::manifold::ManifoldError;
use toposhield::manifold::ManifoldSource;
use toposhield::matrix::Matrix;

fn fe(x: u64) -> FieldElement {
    FieldElement::from_u64(x)
}

fn small(a: u64, b: u64, c: u64, d: u64) -> Matrix {
    Matrix { a: fe(a), b: fe(b), c: fe(c), d: fe(d) }
}

fn genus_two_matrices() -> Vec<Matrix> {
    vec![small(2, 1, 1, 1), small(3, 2, 1, 1), small(3, 2, 1, 1), small(2, 1, 1, 1)]
}

fn seeded(genus: u8, seed: &[u8]) -> Result<HyperbolicManifold, ManifoldError> {
    HyperbolicManifold::construct(
        genus,
        ManifoldSource::SeededDynamic { p_inv: 7, seed: seed.to_vec() },
    )
}

#[test]
fn default_manifold_has_genus_five() {
    let manifold = HyperbolicManifold::new();
    assert_eq!(manifold.genus(), 5);
    assert_eq!(manifold.chi(), -8);
    assert_eq!(manifold.p_inv(), 12345);
    assert_eq!(manifold.generators().len(), 10);
    for generator in manifold.generators() {
        assert_eq!(generator.determinant(), FieldElement::one());
    }
    assert_eq!(relator_product(manifold.generators(), 5), Matrix::identity());
    assert!(generators_valid(5, manifold.generators()));
    assert_ne!(relator_product(manifold.generators(), 4), Matrix::identity());
    let traces: Vec<FieldElement> = manifold.generators().iter().map(|m| m.trace()).collect();
    let expected: Vec<FieldElement> =
        [3, 4, 6, 9, 14, 16, 21, 24, 29, 26].iter().map(|&t| fe(t)).collect();
    assert_eq!(traces, expected);
    assert_eq!(manifold.generators()[0], small(2, 1, 1, 1));
    assert_eq!(manifold.generators()[7], small(19, 1, 94, 5));
    assert_eq!(manifold.generators()[8].a, fe(23));
    assert_eq!(manifold.generators()[8].d, fe(6));
}

#[test]
fn generator_and_shifted_index_are_inverse() {
    let manifold = HyperbolicManifold::new();
    for idx in 0..10usize {
        let generator = manifold.get_generator(idx).unwrap();
        let inverse = manifold.get_generator(idx + 10).unwrap();
        assert_eq!(generator.multiply(&inverse), Matrix::identity());
        assert_eq!(inverse.multiply(&generator), Matrix::identity());
        assert_eq!(inverse, generator.invert());
        assert_eq!(generator, manifold.generators()[idx]);
    }
}

#[test]
fn index_beyond_four_g_is_invalid() {
    let manifold = HyperbolicManifold::new();
    assert!(manifold.get_generator(19).is_ok());
    assert_eq!(manifold.get_generator(20), Err(ManifoldError::InvalidIndex));
    assert_eq!(manifold.get_generator(usize::MAX), Err(ManifoldError::InvalidIndex));
}

#[test]
fn genus_below_two_or_above_the_limit_is_refused() {
    for genus in [0u8, 1, 64, 255] {
        let fixed = HyperbolicManifold::construct(
            genus,
            ManifoldSource::Fixed { p_inv: 1, matrices: genus_two_matrices() },
        );
        assert_eq!(fixed.err(), Some(ManifoldError::InvalidGenus));
        assert_eq!(seeded(genus, b"seed").err(), Some(ManifoldError::InvalidGenus));
    }
}

#[test]
fn fixed_matrices_are_taken_as_they_are() {
    let manifold = HyperbolicManifold::construct(
        2,
        ManifoldSource::Fixed { p_inv: 99, matrices: genus_two_matrices() },
    )
    .unwrap();
    assert_eq!(manifold.genus(), 2);
    assert_eq!(manifold.chi(), -2);
    assert_eq!(manifold.p_inv(), 99);
    assert_eq!(manifold.generators(), &genus_two_matrices());
    assert_eq!(manifold.get_generator(4).unwrap(), small(2, 1, 1, 1).invert());
    assert_eq!(manifold.get_generator(8), Err(ManifoldError::InvalidIndex));
}

#[test]
fn fixed_matrices_must_be_two_g_in_number() {
    let mut matrices = genus_two_matrices();
    matrices.pop();
    let r = HyperbolicManifold::construct(2, ManifoldSource::Fixed { p_inv: 1, matrices });
    assert_eq!(r.err(), Some(ManifoldError::MalformedParameters));
    let r = HyperbolicManifold::construct(
        3,
        ManifoldSource::Fixed { p_inv: 1, matrices: genus_two_matrices() },
    );
    assert_eq!(r.err(), Some(ManifoldError::MalformedParameters));
}

#[test]
fn fixed_matrices_must_have_determinant_one() {
    let mut matrices = genus_two_matrices();
    matrices[1] = small(3, 2, 1, 2);
    matrices[2] = small(3, 2, 1, 2);
    let r = HyperbolicManifold::construct(2, ManifoldSource::Fixed { p_inv: 1, matrices });
    assert_eq!(r.err(), Some(ManifoldError::MalformedParameters));
}

#[test]
fn fixed_matrices_must_satisfy_the_relator() {
    let matrices = vec![small(2, 1, 1, 1), small(3, 2, 1, 1), small(5, 4, 1, 1), small(7, 13, 1, 2)];
    assert!(matrices.iter().all(|m| m.is_special()));
    let r = HyperbolicManifold::construct(2, ManifoldSource::Fixed { p_inv: 1, matrices });
    assert_eq!(r.err(), Some(ManifoldError::MalformedParameters));
}

#[test]
fn seeded_manifold_satisfies_determinant_and_relator() {
    for (genus, seed) in [(2u8, &b"seed"[..]), (3, b"another seed"), (5, b""), (5, b"genus five")] {
        let manifold = seeded(genus, seed).unwrap();
        assert_eq!(manifold.genus(), genus);
        assert_eq!(manifold.chi(), 2 - 2 * genus as i32);
        assert_eq!(manifold.p_inv(), 7);
        assert_eq!(manifold.generators().len(), 2 * genus as usize);
        for generator in manifold.generators() {
            assert_eq!(generator.determinant(), FieldElement::one());
        }
        assert_eq!(relator_product(manifold.generators(), genus as usize), Matrix::identity());
        for idx in 0..2 * genus as usize {
            let product = manifold
                .get_generator(idx)
                .unwrap()
                .multiply(&manifold.get_generator(idx + 2 * genus as usize).unwrap());
            assert_eq!(product, Matrix::identity());
        }
    }
}

#[test]
fn seeded_manifold_is_determined_by_its_seed() {
    let first = seeded(5, b"one seed").unwrap();
    let again = seeded(5, b"one seed").unwrap();
    let other = seeded(5, b"other seed").unwrap();
    assert_eq!(first.generators(), again.generators());
    assert_ne!(first.generators(), other.generators());
}

#[test]
fn seeded_manifold_keeps_the_drawn_candidates_but_for_the_final_pair() {
    let manifold = seeded(3, b"candidates").unwrap();
    let drawn = draw_candidate_matrices(b"candidates", 6);
    assert_eq!(drawn.len(), 6);
    assert!(drawn.iter().all(|m| m.is_special()));
    assert_eq!(&manifold.generators()[..4], &drawn[..4]);
    assert_ne!(&manifold.generators()[4..], &drawn[4..]);
}

#[test]
fn seeded_generators_do_not_commute() {
    let manifold = seeded(2, b"order").unwrap();
    let forward = compute_holonomy(&[0, 1], &manifold).unwrap();
    let backward = compute_holonomy(&[1, 0], &manifold).unwrap();
    assert_ne!(forward, backward);
}

#[test]
fn solved_pair_has_the_commutator_asked_for() {
    let target = small(2, 1, 1, 1).commutator(&small(3, 2, 1, 1));
    let (x, y) = solve_for_commutator(&target, &fe(3), &fe(5)).unwrap();
    assert!(x.is_special());
    assert!(y.is_special());
    assert_eq!(x.commutator(&y), target);
    assert_eq!(x.trace(), fe(3).plus(&fe(3).inverted().unwrap()));
}

#[test]
fn no_pair_is_solved_for_degenerate_parameters() {
    let target = small(2, 1, 1, 1).commutator(&small(3, 2, 1, 1));
    assert_eq!(solve_for_commutator(&target, &fe(0), &fe(5)), None);
    assert_eq!(solve_for_commutator(&target, &fe(3), &fe(0)), None);
    assert_eq!(solve_for_commutator(&target, &fe(1), &fe(5)), None);
    assert_eq!(solve_for_commutator(&Matrix::identity(), &fe(3), &fe(5)), None);
}

#[test]
fn search_gives_up_when_no_pair_can_close_the_relator() {
    // The first commutator is the identity, and no pair is solved for it.
    let cands = vec![Matrix::identity(), Matrix::identity(), small(2, 1, 1, 1), small(3, 1, 2, 1)];
    assert_eq!(search_final_pair(&cands, 2), None);
}

#[test]
fn search_replaces_only_the_final_pair() {
    let cands = vec![small(2, 1, 1, 1), small(3, 1, 2, 1), small(5, 1, 4, 1), small(7, 1, 13, 2)];
    let gens = search_final_pair(&cands, 2).unwrap();
    assert_eq!(&gens[..2], &cands[..2]);
    assert_eq!(gens.len(), 4);
    assert!(generators_valid(2, &gens));
    assert_eq!(gens[2].commutator(&gens[3]), cands[0].commutator(&cands[1]).invert());
}

#[test]
fn drawing_stops_at_the_cap() {
    assert_eq!(draw_candidate_matrices(b"cap", 300).len(), 256);
    assert_eq!(draw_candidate_matrices(b"cap", 0).len(), 0);
    let three = draw_candidate_matrices(b"cap", 3);
    let four = draw_candidate_matrices(b"cap", 4);
    assert_eq!(&four[..3], &three[..]);
}
