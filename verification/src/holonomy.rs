//! The holonomy of a path: the ordered product of the matrices it names.
//!
//! The product is taken in the order of the path, `M(p_0) M(p_1) .. M(p_n)`:
//! each index multiplies what has been accumulated from the right. The
//! group is not abelian, so the order is part of the protocol.
use vstd::prelude::*;
use crate::manifold::generator_at;
use crate::manifold::lemma_generator_special;
use crate::manifold::lemma_generators_mutually_inverse;
use crate::manifold::valid_generators;
use crate::manifold::HyperbolicManifold;
use crate::manifold::ManifoldError;
use crate::matrix::lemma_mul_assoc;
use crate::matrix::lemma_mul_identity;
use crate::matrix::lemma_mul_special;
use crate::matrix::mat_identity;
use crate::matrix::mat_mul;
use crate::matrix::mat_reduced;
use crate::matrix::mat_special;
use crate::matrix::Mat;
use crate::matrix::Matrix;
use crate::path::cancels;
use crate::path::free_reduce;
use crate::path::indices_valid;

verus! {

/// The holonomy of `path` under the generators `gens` of a surface of the
/// given genus.
pub open spec fn holonomy(path: Seq<u8>, gens: Seq<Mat>, genus: int) -> Mat
    decreases path.len(),
{
    if path.len() == 0 {
        mat_identity()
    } else {
        mat_mul(
            holonomy(path.drop_last(), gens, genus),
            generator_at(gens, genus, path.last() as int),
        )
    }
}

/// The matrix that four field elements spell, row by row.
pub open spec fn entries_view(entries: [crate::field::FieldElement; 4]) -> Mat {
    Mat { a: entries[0]@, b: entries[1]@, c: entries[2]@, d: entries[3]@ }
}

/// A holonomy has residues for entries.
pub proof fn lemma_holonomy_reduced(path: Seq<u8>, gens: Seq<Mat>, genus: int)
    ensures
        mat_reduced(holonomy(path, gens, genus)),
{
}

/// The holonomy of a path of valid indices has determinant one.
pub proof fn lemma_holonomy_special(path: Seq<u8>, gens: Seq<Mat>, genus: int)
    requires
        valid_generators(genus, gens),
        indices_valid(path, genus),
    ensures
        mat_special(holonomy(path, gens, genus)),
    decreases path.len(),
{
    if path.len() == 0 {
        assert(1 * 1 - 0 * 0 == 1) by (nonlinear_arith);
        vstd::arithmetic::div_mod::lemma_small_mod(1, crate::field::modulus() as nat);
    } else {
        let front = path.drop_last();
        assert forall|i: int| 0 <= i < front.len() implies (#[trigger] front[i]) < 4 * genus by {
            assert(front[i] == path[i]);
        }
        lemma_holonomy_special(front, gens, genus);
        assert(path.last() == path[path.len() - 1]);
        lemma_generator_special(gens, genus, path.last() as int);
        lemma_mul_special(
            holonomy(front, gens, genus),
            generator_at(gens, genus, path.last() as int),
        );
    }
}

/// The holonomy of a concatenation is the product of the holonomies, in
/// the order of the paths.
pub proof fn lemma_holonomy_concat(left: Seq<u8>, right: Seq<u8>, gens: Seq<Mat>, genus: int)
    ensures
        holonomy(left + right, gens, genus) == mat_mul(
            holonomy(left, gens, genus),
            holonomy(right, gens, genus),
        ),
    decreases right.len(),
{
    if right.len() == 0 {
        assert(left + right =~= left);
        lemma_holonomy_reduced(left, gens, genus);
        lemma_mul_identity(holonomy(left, gens, genus));
    } else {
        let front = right.drop_last();
        assert((left + right).drop_last() =~= left + front);
        assert((left + right).last() == right.last());
        lemma_holonomy_concat(left, front, gens, genus);
        lemma_mul_assoc(
            holonomy(left, gens, genus),
            holonomy(front, gens, genus),
            generator_at(gens, genus, right.last() as int),
        );
    }
}

/// The product may as well be accumulated from the other end: the
/// holonomy of a path is the matrix of its first index times the holonomy
/// of the rest. Both ways of walking the path give the same matrix.
pub proof fn lemma_holonomy_from_front(x: u8, rest: Seq<u8>, gens: Seq<Mat>, genus: int)
    requires
        mat_reduced(generator_at(gens, genus, x as int)),
    ensures
        holonomy(seq![x] + rest, gens, genus) == mat_mul(
            generator_at(gens, genus, x as int),
            holonomy(rest, gens, genus),
        ),
{
    let one = seq![x];
    assert(one.drop_last() =~= Seq::<u8>::empty());
    assert(one.last() == x);
    assert(holonomy(one.drop_last(), gens, genus) == mat_identity());
    assert(holonomy(one, gens, genus) == mat_mul(
        mat_identity(),
        generator_at(gens, genus, x as int),
    ));
    lemma_mul_identity(generator_at(gens, genus, x as int));
    lemma_holonomy_concat(one, rest, gens, genus);
}

/// Appending an index and then its inverse leaves the holonomy as it was.
pub proof fn lemma_holonomy_cancel(path: Seq<u8>, x: u8, y: u8, gens: Seq<Mat>, genus: int)
    requires
        valid_generators(genus, gens),
        cancels(x, y, genus),
    ensures
        holonomy(path.push(x).push(y), gens, genus) == holonomy(path, gens, genus),
{
    let h = holonomy(path, gens, genus);
    let gx = generator_at(gens, genus, x as int);
    let gy = generator_at(gens, genus, y as int);
    let one = path.push(x);
    let two = one.push(y);
    assert(two.drop_last() =~= one);
    assert(two.last() == y);
    assert(one.drop_last() =~= path);
    assert(one.last() == x);
    assert(holonomy(one, gens, genus) == mat_mul(h, gx));
    assert(holonomy(two, gens, genus) == mat_mul(mat_mul(h, gx), gy));
    lemma_mul_assoc(h, gx, gy);
    if y == x + 2 * genus {
        lemma_generators_mutually_inverse(gens, genus, x as int);
    } else {
        lemma_generators_mutually_inverse(gens, genus, y as int);
    }
    lemma_holonomy_reduced(path, gens, genus);
    lemma_mul_identity(h);
}

/// Free reduction does not change the holonomy: cancelling a generator
/// against its inverse removes a factor that is the identity.
pub proof fn lemma_free_reduce_keeps_holonomy(path: Seq<u8>, gens: Seq<Mat>, genus: int)
    requires
        valid_generators(genus, gens),
    ensures
        holonomy(free_reduce(path, genus), gens, genus) == holonomy(path, gens, genus),
    decreases path.len(),
{
    if path.len() > 0 {
        let front = path.drop_last();
        let kept = free_reduce(front, genus);
        lemma_free_reduce_keeps_holonomy(front, gens, genus);
        if kept.len() > 0 && cancels(kept.last(), path.last(), genus) {
            let shorter = kept.drop_last();
            assert(shorter.push(kept.last()) =~= kept);
            lemma_holonomy_cancel(shorter, kept.last(), path.last(), gens, genus);
            assert(shorter.push(kept.last()).push(path.last()).drop_last() =~= kept);
        } else {
            assert(kept.push(path.last()).drop_last() =~= kept);
        }
    }
}

/// The holonomy of a path whose indices are all valid.
pub fn holonomy_of_valid(path: &[u8], manifold: &HyperbolicManifold) -> (r: Matrix)
    requires
        indices_valid(path@, manifold.spec_genus()),
    ensures
        r@ == holonomy(path@, manifold.spec_generators(), manifold.spec_genus()),
        mat_special(r@),
        manifold.wf(),
{
    let genus = manifold.genus();
    let mut product = Matrix::identity();
    let mut i: usize = 0;
    assert(path@.take(0) =~= Seq::<u8>::empty());
    while i < path.len()
        invariant
            i <= path@.len(),
            indices_valid(path@, manifold.spec_genus()),
            product@ == holonomy(
                path@.take(i as int),
                manifold.spec_generators(),
                manifold.spec_genus(),
            ),
        decreases path@.len() - i,
    {
        proof {
            let upto = path@.take(i + 1);
            assert(upto.drop_last() =~= path@.take(i as int));
            assert(upto.last() == path@[i as int]);
        }
        let generator = manifold.generator(path[i]);
        product = product.multiply(&generator);
        i = i + 1;
    }
    proof {
        assert(path@.take(path@.len() as int) =~= path@);
        lemma_holonomy_special(path@, manifold.spec_generators(), manifold.spec_genus());
    }
    product
}

/// Whether every index of `path` is below `4g`.
pub fn path_is_valid(path: &[u8], genus: u8) -> (r: bool)
    requires
        genus <= crate::path::MAX_GENUS,
    ensures
        r == indices_valid(path@, genus as int),
{
    let mut i: usize = 0;
    while i < path.len()
        invariant
            i <= path@.len(),
            genus <= crate::path::MAX_GENUS,
            forall|j: int| 0 <= j < i ==> (#[trigger] path@[j]) < 4 * genus,
        decreases path@.len() - i,
    {
        if path[i] >= 4 * genus {
            return false;
        }
        i = i + 1;
    }
    true
}

/// The holonomy of `path` under `manifold`: the product of the matrices
/// that its indices name, in the order of the path. A path with an index
/// at or above `4g` has no holonomy.
pub fn compute_holonomy(path: &[u8], manifold: &HyperbolicManifold) -> (r: Result<
    [crate::field::FieldElement; 4],
    ManifoldError,
>)
    ensures
        manifold.wf(),
        indices_valid(path@, manifold.spec_genus()) ==> r is Ok && entries_view(r.unwrap())
            == holonomy(path@, manifold.spec_generators(), manifold.spec_genus())
            && mat_special(entries_view(r.unwrap())),
        !indices_valid(path@, manifold.spec_genus()) ==> r == Err::<
            [crate::field::FieldElement; 4],
            ManifoldError,
        >(ManifoldError::InvalidIndex),
{
    let genus = manifold.genus();
    if path_is_valid(path, genus) {
        Ok(holonomy_of_valid(path, manifold).entries())
    } else {
        Err(ManifoldError::InvalidIndex)
    }
}

} // verus!
