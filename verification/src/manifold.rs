//! The genus-g surface group as matrices: the manifold's parameters.
//!
//! A manifold holds `2g` generator matrices `A_1, B_1, .., A_g, B_g` of
//! determinant one whose commutators multiply to the identity, the relator
//! of the surface group. It is built once, from literal matrices or from a
//! seed, checked as it is built, and never changed afterwards.
use vstd::prelude::*;
use crate::digest::sha256;
use crate::digest::sha256_digest;
use crate::encoding::le_value;
use crate::field::field_add;
use crate::field::field_inv;
use crate::field::field_mul;
use crate::field::field_sub;
use crate::field::FieldElement;
use crate::matrix::lemma_inv_det;
use crate::matrix::lemma_mul_inverse;
use crate::matrix::mat_commutator;
use crate::matrix::mat_identity;
use crate::matrix::mat_inv;
use crate::matrix::mat_mul;
use crate::matrix::mat_reduced;
use crate::matrix::mat_special;
use crate::matrix::Mat;
use crate::matrix::Matrix;
use crate::parameters::default_generators;
use crate::parameters::default_matrices;
use crate::parameters::lemma_default_generators_valid;
use crate::path::genus_ok;
use crate::path::MAX_GENUS;

verus! {

/// The mathematical matrices that a sequence of `Matrix` values stands for.
pub open spec fn mat_views(matrices: Seq<Matrix>) -> Seq<Mat> {
    Seq::new(matrices.len(), |i: int| matrices[i]@)
}

/// The product of the first `pairs` commutators `[A_i, B_i]`, the pairs
/// lying side by side in `gens`.
pub open spec fn relator(gens: Seq<Mat>, pairs: nat) -> Mat
    decreases pairs,
{
    if pairs == 0 {
        mat_identity()
    } else {
        mat_mul(
            relator(gens, (pairs - 1) as nat),
            mat_commutator(gens[2 * (pairs - 1)], gens[2 * (pairs - 1) + 1]),
        )
    }
}

/// Every matrix of the sequence has determinant one.
pub open spec fn all_special(gens: Seq<Mat>) -> bool {
    forall|i: int| 0 <= i < gens.len() ==> mat_special(#[trigger] gens[i])
}

/// `gens` represents the surface group of the given genus: there are `2g`
/// matrices, each of determinant one, and the relator holds.
pub open spec fn valid_generators(genus: int, gens: Seq<Mat>) -> bool {
    &&& genus_ok(genus)
    &&& gens.len() == 2 * genus
    &&& all_special(gens)
    &&& relator(gens, genus as nat) == mat_identity()
}

/// The matrix that a generator index names: a generator for an index below
/// `2g`, the inverse of generator `idx - 2g` from there on.
pub open spec fn generator_at(gens: Seq<Mat>, genus: int, idx: int) -> Mat {
    if idx < 2 * genus {
        gens[idx]
    } else {
        mat_inv(gens[idx - 2 * genus])
    }
}

/// Every index below `4g` names a matrix of determinant one.
pub proof fn lemma_generator_special(gens: Seq<Mat>, genus: int, idx: int)
    requires
        valid_generators(genus, gens),
        0 <= idx < 4 * genus,
    ensures
        mat_special(generator_at(gens, genus, idx)),
{
    if idx >= 2 * genus {
        lemma_inv_det(gens[idx - 2 * genus]);
    }
}

/// The matrices named by `idx` and by `idx + 2g` are inverse to each other.
pub proof fn lemma_generators_mutually_inverse(gens: Seq<Mat>, genus: int, idx: int)
    requires
        valid_generators(genus, gens),
        0 <= idx < 2 * genus,
    ensures
        mat_mul(generator_at(gens, genus, idx), generator_at(gens, genus, idx + 2 * genus))
            == mat_identity(),
        mat_mul(generator_at(gens, genus, idx + 2 * genus), generator_at(gens, genus, idx))
            == mat_identity(),
{
    lemma_mul_inverse(gens[idx]);
}

/// Why a manifold could not be built or asked.
#[derive(Clone, Copy, Debug, PartialEq, Eq)]
pub enum ManifoldError {
    /// The genus is below 2 or above `MAX_GENUS`.
    InvalidGenus,
    /// The literal matrices are not `2g` matrices of determinant one that
    /// satisfy the relator.
    MalformedParameters,
    /// The seed gave no valid manifold within the iteration bounds.
    SearchExhausted,
    /// A generator index at or above `4g`.
    InvalidIndex,
}

/// The product of the first `pairs` commutators of `gens`.
pub fn relator_product(gens: &Vec<Matrix>, pairs: usize) -> (r: Matrix)
    requires
        2 * pairs <= gens@.len(),
    ensures
        r@ == relator(mat_views(gens@), pairs as nat),
{
    let count = gens.len();
    let mut product = Matrix::identity();
    let mut k: usize = 0;
    while k < pairs
        invariant
            k <= pairs,
            2 * pairs <= gens@.len(),
            gens@.len() == count,
            product@ == relator(mat_views(gens@), k as nat),
        decreases pairs - k,
    {
        let commutator = gens[2 * k].commutator(&gens[2 * k + 1]);
        product = product.multiply(&commutator);
        k = k + 1;
    }
    product
}

/// Whether every matrix of `gens` has determinant one.
pub fn all_have_determinant_one(gens: &Vec<Matrix>) -> (r: bool)
    ensures
        r == all_special(mat_views(gens@)),
{
    let mut i: usize = 0;
    while i < gens.len()
        invariant
            i <= gens@.len(),
            forall|j: int| 0 <= j < i ==> mat_special(#[trigger] mat_views(gens@)[j]),
        decreases gens@.len() - i,
    {
        if !gens[i].is_special() {
            assert(!mat_special(mat_views(gens@)[i as int]));
            return false;
        }
        i = i + 1;
    }
    true
}

/// Whether `gens` represents the surface group of the given genus.
pub fn generators_valid(genus: u8, gens: &Vec<Matrix>) -> (r: bool)
    ensures
        r == valid_generators(genus as int, mat_views(gens@)),
{
    if genus < 2 || genus > MAX_GENUS {
        return false;
    }
    if gens.len() != 2 * (genus as usize) {
        return false;
    }
    if !all_have_determinant_one(gens) {
        return false;
    }
    let product = relator_product(gens, genus as usize);
    product.equals(&Matrix::identity())
}

/// How many triples of field elements a seeded construction draws at most.
pub const DRAW_CAP: usize = 256;

/// How many final pairs a seeded construction tries at most.
pub const SEARCH_CAP: usize = 64;

/// The state of the seeded generator after `k` steps: the seed's digest,
/// digested `k` more times.
pub open spec fn prf_state(seed: Seq<u8>, k: nat) -> Seq<u8>
    decreases k,
{
    if k == 0 {
        sha256_digest(seed)
    } else {
        sha256_digest(prf_state(seed, (k - 1) as nat))
    }
}

/// The `k`-th field element drawn from the seed: the number that the first
/// 31 bytes of the `k`-th state spell.
pub open spec fn prf_element(seed: Seq<u8>, k: nat) -> int {
    le_value(prf_state(seed, k).take(31)) as int
}

/// The matrix of determinant one with first row `(a, b)` and `c` below `a`:
/// its last entry is `(1 + b c) / a`.
pub open spec fn candidate_matrix(a: int, b: int, c: int) -> Mat {
    Mat { a: a, b: b, c: c, d: field_mul(field_add(1, field_mul(b, c)), field_inv(a)) }
}

/// What the `t`-th triple adds to the candidates drawn so far: a matrix,
/// unless its first element is zero.
pub open spec fn draw_step(seed: Seq<u8>, t: nat, drawn: Seq<Mat>) -> Seq<Mat> {
    let a = prf_element(seed, 3 * t);
    if a == 0 {
        drawn
    } else {
        drawn.push(candidate_matrix(a, prf_element(seed, 3 * t + 1), prf_element(seed, 3 * t + 2)))
    }
}

/// The candidates in hand once `want` of them are drawn or `DRAW_CAP`
/// triples are used up, starting from triple `t` with `drawn` in hand.
pub open spec fn draw_candidates(seed: Seq<u8>, t: nat, drawn: Seq<Mat>, want: nat) -> Seq<Mat>
    decreases DRAW_CAP - t,
{
    if drawn.len() >= want || t >= DRAW_CAP {
        drawn
    } else {
        draw_candidates(seed, t + 1, draw_step(seed, t, drawn), want)
    }
}

/// The shear `(1, u; 0, 1)`.
pub open spec fn shear(u: int) -> Mat {
    Mat { a: 1, b: u, c: 0, d: 1 }
}

/// The conjugate `p x p^-1`.
pub open spec fn conjugate(p: Mat, x: Mat) -> Mat {
    mat_mul(mat_mul(p, x), mat_inv(p))
}

/// A pair of matrices meant to have the commutator `m`, found in closed
/// form from two free parameters `t` and `a0`. A shear brings `m` to a
/// shape in which a diagonal matrix `(t, 1/t)` and a matrix with first
/// entry `a0` have it as their commutator; the pair is carried back by the
/// same shear. There is no pair where one of the divisors vanishes.
pub open spec fn solve_commutator(m: Mat, t: int, a0: int) -> Option<(Mat, Mat)> {
    let s = field_mul(t, t);
    let one_minus_s = field_sub(1, s);
    let du = field_mul(m.c, one_minus_s);
    let db = field_mul(field_sub(s, 1), a0);
    if t == 0 || a0 == 0 || one_minus_s == 0 || du == 0 || db == 0 {
        None
    } else {
        let u = field_mul(
            field_add(field_mul(s, field_sub(m.d, 1)), field_sub(m.a, 1)),
            field_inv(du),
        );
        let p = shear(u);
        let mm = mat_mul(mat_mul(mat_inv(p), m), p);
        let bc = field_mul(field_sub(mm.a, 1), field_inv(one_minus_s));
        let b = field_mul(mm.b, field_inv(db));
        if b == 0 {
            None
        } else {
            let c = field_mul(bc, field_inv(b));
            let d = field_mul(field_add(1, bc), field_inv(a0));
            Some(
                (
                    conjugate(p, Mat { a: t, b: 0, c: 0, d: field_inv(t) }),
                    conjugate(p, Mat { a: a0, b: b, c: c, d: d }),
                ),
            )
        }
    }
}

/// The commutator that the final pair must have for the relator to hold:
/// the inverse of the product of the commutators before it.
pub open spec fn search_target(cands: Seq<Mat>, genus: int) -> Mat {
    mat_inv(relator(cands, (genus - 1) as nat))
}

/// The `k`-th attempt at a full set of generators: the candidates with
/// their final pair replaced by the solution for the parameters
/// `t = a + k`, `a` the first entry of the drawn `A_g`, and `a0` the
/// first entry of the drawn `B_g`.
pub open spec fn search_attempt(cands: Seq<Mat>, genus: int, k: nat) -> Option<Seq<Mat>> {
    match solve_commutator(
        search_target(cands, genus),
        field_add(cands[2 * genus - 2].a, k as int),
        cands[2 * genus - 1].a,
    ) {
        Some((x, y)) => Some(cands.take(2 * genus - 2).push(x).push(y)),
        None => None,
    }
}

/// The first attempt from `k` on, below `SEARCH_CAP`, that is a valid set
/// of generators.
pub open spec fn search(cands: Seq<Mat>, genus: int, k: nat) -> Option<Seq<Mat>>
    decreases SEARCH_CAP - k,
{
    if k >= SEARCH_CAP {
        None
    } else {
        let attempt = search_attempt(cands, genus, k);
        if attempt is Some && valid_generators(genus, attempt.unwrap()) {
            attempt
        } else {
            search(cands, genus, k + 1)
        }
    }
}

/// The generators that a seed gives for a genus, if it gives any: `2g`
/// candidates are drawn, and the final pair is adjusted by search.
pub open spec fn seeded_generators(genus: int, seed: Seq<u8>) -> Option<Seq<Mat>> {
    let cands = draw_candidates(seed, 0, Seq::empty(), (2 * genus) as nat);
    if cands.len() < 2 * genus {
        None
    } else {
        search(cands, genus, 0)
    }
}

/// Drawing stops as soon as enough candidates are in hand.
pub proof fn lemma_draw_len(seed: Seq<u8>, t: nat, drawn: Seq<Mat>, want: nat)
    requires
        drawn.len() <= want,
    ensures
        draw_candidates(seed, t, drawn, want).len() <= want,
    decreases DRAW_CAP - t,
{
    if !(drawn.len() >= want || t >= DRAW_CAP) {
        lemma_draw_len(seed, t + 1, draw_step(seed, t, drawn), want);
    }
}

/// Where the matrices of a manifold come from.
#[derive(Clone, Debug)]
pub enum ManifoldSource {
    /// Literal matrices `A_1, B_1, .., A_g, B_g`.
    Fixed { p_inv: u64, matrices: Vec<Matrix> },
    /// Matrices drawn from a seed.
    SeededDynamic { p_inv: u64, seed: Vec<u8> },
}

impl ManifoldSource {
    /// The fingerprint that the source gives the manifold.
    pub open spec fn spec_p_inv(self) -> u64 {
        match self {
            ManifoldSource::Fixed { p_inv, matrices } => p_inv,
            ManifoldSource::SeededDynamic { p_inv, seed } => p_inv,
        }
    }
}

/// What building a manifold of the given genus from the given source comes
/// to: its generators, or the reason why there is no such manifold.
pub open spec fn construction(genus: int, source: ManifoldSource) -> Result<
    Seq<Mat>,
    ManifoldError,
> {
    if !genus_ok(genus) {
        Err(ManifoldError::InvalidGenus)
    } else {
        match source {
            ManifoldSource::Fixed { p_inv, matrices } => {
                if valid_generators(genus, mat_views(matrices@)) {
                    Ok(mat_views(matrices@))
                } else {
                    Err(ManifoldError::MalformedParameters)
                }
            },
            ManifoldSource::SeededDynamic { p_inv, seed } => {
                match seeded_generators(genus, seed@) {
                    Some(gens) => Ok(gens),
                    None => Err(ManifoldError::SearchExhausted),
                }
            },
        }
    }
}

/// Draws candidate matrices of determinant one from the seed until `want`
/// are in hand or `DRAW_CAP` triples are used up.
pub fn draw_candidate_matrices(seed: &[u8], want: usize) -> (r: Vec<Matrix>)
    ensures
        mat_views(r@) == draw_candidates(seed@, 0, Seq::empty(), want as nat),
{
    let mut drawn: Vec<Matrix> = Vec::new();
    let mut state = sha256(seed);
    let mut t: usize = 0;
    assert(mat_views(drawn@) =~= Seq::<Mat>::empty());
    while drawn.len() < want && t < DRAW_CAP
        invariant
            t <= DRAW_CAP,
            state@ == prf_state(seed@, (3 * t) as nat),
            state@.len() == 32,
            draw_candidates(seed@, t as nat, mat_views(drawn@), want as nat) == draw_candidates(
                seed@,
                0,
                Seq::empty(),
                want as nat,
            ),
        decreases DRAW_CAP - t,
    {
        let ghost before = mat_views(drawn@);
        let a = FieldElement::from_chunk(state.as_slice(), 0, 31);
        assert(state@.subrange(0, 31) =~= state@.take(31));
        state = sha256(state.as_slice());
        let b = FieldElement::from_chunk(state.as_slice(), 0, 31);
        assert(state@.subrange(0, 31) =~= state@.take(31));
        state = sha256(state.as_slice());
        let c = FieldElement::from_chunk(state.as_slice(), 0, 31);
        assert(state@.subrange(0, 31) =~= state@.take(31));
        state = sha256(state.as_slice());
        match a.inverted() {
            Some(a_inv) => {
                let d = FieldElement::one().plus(&b.times(&c)).times(&a_inv);
                drawn.push(Matrix { a, b, c, d });
                assert(mat_views(drawn@) =~= draw_step(seed@, t as nat, before));
            },
            None => {},
        }
        t = t + 1;
    }
    drawn
}

/// The pair of matrices that `solve_commutator` names, computed.
pub fn solve_for_commutator(target: &Matrix, t: &FieldElement, a0: &FieldElement) -> (r: Option<
    (Matrix, Matrix),
>)
    ensures
        match r {
            Some((x, y)) => solve_commutator(target@, t@, a0@) == Some((x@, y@)),
            None => solve_commutator(target@, t@, a0@) is None,
        },
{
    let one = FieldElement::one();
    let zero = FieldElement::zero();
    let s = t.times(t);
    let one_minus_s = one.minus(&s);
    let du = target.c.times(&one_minus_s);
    let db = s.minus(&one).times(a0);
    let t_inv = t.inverted();
    let a0_inv = a0.inverted();
    let oms_inv = one_minus_s.inverted();
    let du_inv = du.inverted();
    let db_inv = db.inverted();
    if t_inv.is_none() || a0_inv.is_none() || oms_inv.is_none() || du_inv.is_none()
        || db_inv.is_none() {
        return None;
    }
    let u = s.times(&target.d.minus(&one)).plus(&target.a.minus(&one)).times(&du_inv.unwrap());
    let p = Matrix { a: one, b: u, c: zero, d: one };
    let p_inv = p.invert();
    let mm = p_inv.multiply(target).multiply(&p);
    let bc = mm.a.minus(&one).times(&oms_inv.unwrap());
    let b = mm.b.times(&db_inv.unwrap());
    match b.inverted() {
        None => None,
        Some(b_inv) => {
            let c = bc.times(&b_inv);
            let d = one.plus(&bc).times(&a0_inv.unwrap());
            let x0 = Matrix { a: *t, b: zero, c: zero, d: t_inv.unwrap() };
            let y0 = Matrix { a: *a0, b: b, c: c, d: d };
            let x = p.multiply(&x0).multiply(&p_inv);
            let y = p.multiply(&y0).multiply(&p_inv);
            Some((x, y))
        },
    }
}

/// The first `count` matrices of `cands`, followed by `x` and `y`.
fn with_final_pair(cands: &Vec<Matrix>, count: usize, x: Matrix, y: Matrix) -> (r: Vec<Matrix>)
    requires
        count <= cands@.len(),
    ensures
        mat_views(r@) == mat_views(cands@).take(count as int).push(x@).push(y@),
{
    let mut gens: Vec<Matrix> = Vec::new();
    let mut i: usize = 0;
    while i < count
        invariant
            i <= count <= cands@.len(),
            gens@ == cands@.take(i as int),
        decreases count - i,
    {
        gens.push(cands[i]);
        assert(gens@ =~= cands@.take(i + 1));
        i = i + 1;
    }
    gens.push(x);
    gens.push(y);
    assert(mat_views(gens@) =~= mat_views(cands@).take(count as int).push(x@).push(y@));
    gens
}

/// Adjusts the final pair of the candidates by search, so that the
/// relator holds.
pub fn search_final_pair(cands: &Vec<Matrix>, genus: u8) -> (r: Option<Vec<Matrix>>)
    requires
        genus_ok(genus as int),
        cands@.len() == 2 * genus,
    ensures
        match r {
            Some(gens) => search(mat_views(cands@), genus as int, 0) == Some(mat_views(gens@))
                && valid_generators(genus as int, mat_views(gens@)),
            None => search(mat_views(cands@), genus as int, 0) is None,
        },
{
    let count = 2 * (genus as usize) - 2;
    let target = relator_product(cands, (genus as usize) - 1).invert();
    let first = cands[count].a;
    let a0 = cands[count + 1].a;
    let mut k: usize = 0;
    while k < SEARCH_CAP
        invariant
            k <= SEARCH_CAP,
            genus_ok(genus as int),
            cands@.len() == 2 * genus,
            count == 2 * genus - 2,
            target@ == search_target(mat_views(cands@), genus as int),
            first@ == mat_views(cands@)[2 * genus - 2].a,
            a0@ == mat_views(cands@)[2 * genus - 1].a,
            search(mat_views(cands@), genus as int, k as nat) == search(
                mat_views(cands@),
                genus as int,
                0,
            ),
        decreases SEARCH_CAP - k,
    {
        let t = first.plus(&FieldElement::from_u64(k as u64));
        match solve_for_commutator(&target, &t, &a0) {
            Some((x, y)) => {
                let gens = with_final_pair(cands, count, x, y);
                if generators_valid(genus, &gens) {
                    return Some(gens);
                }
            },
            None => {},
        }
        k = k + 1;
    }
    None
}

/// The parameters of a hyperbolic surface of genus `g`: its generator
/// matrices and a fingerprint that names the parameter set.
#[derive(Debug)]
pub struct HyperbolicManifold {
    genus: u8,
    p_inv: u64,
    generators: Vec<Matrix>,
}

impl HyperbolicManifold {
    /// The genus.
    pub closed spec fn spec_genus(&self) -> int {
        self.genus as int
    }

    /// The fingerprint.
    pub closed spec fn spec_p_inv(&self) -> u64 {
        self.p_inv
    }

    /// The `2g` generator matrices `A_1, B_1, .., A_g, B_g`.
    pub closed spec fn spec_generators(&self) -> Seq<Mat> {
        mat_views(self.generators@)
    }

    /// The manifold's invariant: its matrices represent the surface group
    /// of its genus.
    pub open spec fn wf(&self) -> bool {
        valid_generators(self.spec_genus(), self.spec_generators())
    }

    #[verifier::type_invariant]
    spec fn holds_invariant(&self) -> bool {
        self.wf()
    }

    /// The matrix that `idx` names in this manifold.
    pub open spec fn spec_generator(&self, idx: int) -> Mat {
        generator_at(self.spec_generators(), self.spec_genus(), idx)
    }

    /// Every matrix that an index below `4g` names has residues for
    /// entries.
    pub proof fn lemma_generator_reduced(&self, idx: int)
        requires
            self.wf(),
            0 <= idx < 4 * self.spec_genus(),
        ensures
            mat_reduced(self.spec_generator(idx)),
    {
        if idx < 2 * self.spec_genus() {
            self.generators@[idx].lemma_view_reduced();
        }
    }

    /// The manifold of genus 5 with the default literal parameter set and
    /// the fingerprint 12345.
    pub fn new() -> (r: Self)
        ensures
            r.wf(),
            r.spec_genus() == 5,
            r.spec_p_inv() == 12345,
            r.spec_generators() == default_generators(),
    {
        let generators = default_matrices();
        proof {
            lemma_default_generators_valid();
        }
        HyperbolicManifold { genus: 5, p_inv: 12345, generators }
    }

    /// Builds the manifold of the given genus from literal matrices or
    /// from a seed. The genus must lie in `2 ..= MAX_GENUS`. Literal
    /// matrices are taken as they are, if they are `2g` matrices of
    /// determinant one that satisfy the relator. A seed gives candidates
    /// whose final pair is adjusted by a bounded search. Whatever the
    /// source, the manifold that comes out has been checked: every
    /// generator has determinant one and the relator holds.
    pub fn construct(genus: u8, source: ManifoldSource) -> (r: Result<Self, ManifoldError>)
        ensures
            match r {
                Ok(m) => construction(genus as int, source) == Ok::<Seq<Mat>, ManifoldError>(
                    m.spec_generators(),
                ) && m.spec_genus() == genus && m.spec_p_inv() == source.spec_p_inv() && m.wf(),
                Err(e) => construction(genus as int, source) == Err::<Seq<Mat>, ManifoldError>(e),
            },
    {
        if genus < 2 || genus > MAX_GENUS {
            return Err(ManifoldError::InvalidGenus);
        }
        match source {
            ManifoldSource::Fixed { p_inv, matrices } => {
                if generators_valid(genus, &matrices) {
                    Ok(HyperbolicManifold { genus, p_inv, generators: matrices })
                } else {
                    Err(ManifoldError::MalformedParameters)
                }
            },
            ManifoldSource::SeededDynamic { p_inv, seed } => {
                let cands = draw_candidate_matrices(seed.as_slice(), 2 * (genus as usize));
                if cands.len() < 2 * (genus as usize) {
                    return Err(ManifoldError::SearchExhausted);
                }
                proof {
                    lemma_draw_len(seed@, 0, Seq::empty(), (2 * genus) as nat);
                }
                match search_final_pair(&cands, genus) {
                    Some(gens) => Ok(HyperbolicManifold { genus, p_inv, generators: gens }),
                    None => Err(ManifoldError::SearchExhausted),
                }
            },
        }
    }

    /// The genus `g`.
    pub fn genus(&self) -> (g: u8)
        ensures
            g == self.spec_genus(),
            genus_ok(g as int),
            self.wf(),
    {
        proof {
            use_type_invariant(self);
        }
        self.genus
    }

    /// The Euler characteristic `2 - 2g`.
    pub fn chi(&self) -> (chi: i32)
        ensures
            chi == 2 - 2 * self.spec_genus(),
    {
        proof {
            use_type_invariant(self);
        }
        2 - 2 * (self.genus as i32)
    }

    /// The fingerprint that the manifold was built with.
    pub fn p_inv(&self) -> (p: u64)
        ensures
            p == self.spec_p_inv(),
    {
        self.p_inv
    }

    /// The generator matrices `A_1, B_1, .., A_g, B_g`.
    pub fn generators(&self) -> (r: &Vec<Matrix>)
        ensures
            mat_views(r@) == self.spec_generators(),
            r@.len() == 2 * self.spec_genus(),
            self.wf(),
    {
        proof {
            use_type_invariant(self);
        }
        &self.generators
    }

    /// The matrix that a valid index names.
    pub fn generator(&self, idx: u8) -> (r: Matrix)
        requires
            idx < 4 * self.spec_genus(),
        ensures
            r@ == self.spec_generator(idx as int),
            mat_special(r@),
    {
        proof {
            use_type_invariant(self);
            lemma_generator_special(self.spec_generators(), self.spec_genus(), idx as int);
        }
        let count = 2 * self.genus;
        if idx < count {
            self.generators[idx as usize]
        } else {
            self.generators[(idx - count) as usize].invert()
        }
    }

    /// The matrix that `idx` names: generator `idx` below `2g`, the inverse
    /// of generator `idx - 2g` below `4g`. Larger indices name nothing.
    pub fn get_generator(&self, idx: usize) -> (r: Result<Matrix, ManifoldError>)
        ensures
            self.wf(),
            idx < 4 * self.spec_genus() ==> r is Ok && r.unwrap()@ == self.spec_generator(
                idx as int,
            ) && mat_special(r.unwrap()@),
            idx >= 4 * self.spec_genus() ==> r == Err::<Matrix, ManifoldError>(
                ManifoldError::InvalidIndex,
            ),
    {
        proof {
            use_type_invariant(self);
        }
        if idx < 4 * (self.genus as usize) {
            Ok(self.generator(idx as u8))
        } else {
            Err(ManifoldError::InvalidIndex)
        }
    }
}

} // verus!
