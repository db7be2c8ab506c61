//! The signer's witness: two normalized paths, their holonomies, and the
//! commitments that bind them to a message and to a manifold.
//!
//! The field-native hash is not computed here. Every function that the
//! scheme hashes for is split at the hash: this module builds what is
//! absorbed, and takes what was squeezed as an argument. `WitnessBuilder`
//! strings the steps together, so that a caller who owns a hash only has to
//! answer its requests.
use vstd::prelude::*;
use crate::encoding::le_bytes;
use crate::encoding::le_value;
use crate::field::field_neg;
use crate::field::FieldElement;
use crate::holonomy::entries_view;
use crate::holonomy::holonomy;
use crate::holonomy::holonomy_of_valid;
use crate::holonomy::lemma_holonomy_concat;
use crate::manifold::HyperbolicManifold;
use crate::matrix::mat_mul;
use crate::matrix::mat_special;
use crate::matrix::mat_trace;
use crate::matrix::Mat;
use crate::path::ensure_reduced_path;
use crate::path::indices_valid;
use crate::path::is_reduced;
use crate::path::normalize;
use crate::path::MAX_GENUS;
use crate::path::PATH_LENGTH;

verus! {

/// The label under which the seed of the key path is derived.
pub const GAMMA_LABEL: [u8; 5] = [0x67, 0x61, 0x6d, 0x6d, 0x61];

/// The label under which the seed of the message path is derived.
pub const DELTA_LABEL: [u8; 5] = [0x64, 0x65, 0x6c, 0x74, 0x61];

/// The residues that a sequence of field elements stands for.
pub open spec fn element_views(elements: Seq<FieldElement>) -> Seq<int> {
    Seq::new(elements.len(), |i: int| elements[i]@)
}

/// The number of field elements that `len` bytes are packed into: one for
/// every 31 bytes begun, and one for no bytes at all.
pub open spec fn chunk_count(len: int) -> int {
    if len == 0 {
        1
    } else {
        (len + 30) / 31
    }
}

/// Where the `j`-th chunk of `len` bytes ends.
pub open spec fn chunk_end(len: int, j: int) -> int {
    if 31 * j + 31 < len {
        31 * j + 31
    } else {
        len
    }
}

/// A byte string as field elements: each run of 31 bytes, the last one
/// possibly shorter, read as a little-endian number.
pub open spec fn packed(bytes: Seq<u8>) -> Seq<int> {
    Seq::new(
        chunk_count(bytes.len() as int) as nat,
        |j: int| le_value(bytes.subrange(31 * j, chunk_end(bytes.len() as int, j))) as int,
    )
}

/// What is absorbed to derive a seed: the length of the label, then the
/// two byte strings, packed.
pub open spec fn seed_input(label_len: int, data1: Seq<u8>, data2: Seq<u8>) -> Seq<int> {
    seq![label_len] + packed(data1) + packed(data2)
}

/// What is absorbed for one position of a path: the four elements of the
/// seed, then the position.
pub open spec fn position_input(seed: [FieldElement; 4], position: int) -> Seq<int> {
    seq![seed[0]@, seed[1]@, seed[2]@, seed[3]@, position]
}

/// The traces of the generators, in their order.
pub open spec fn generator_traces(gens: Seq<Mat>) -> Seq<int> {
    Seq::new(gens.len(), |i: int| mat_trace(gens[i]))
}

/// What is absorbed to describe a manifold: the genus, the Euler
/// characteristic `2 - 2g` as a field element, the fingerprint, and the
/// trace of every generator.
pub open spec fn descriptor_input(genus: int, p_inv: u64, gens: Seq<Mat>) -> Seq<int> {
    seq![genus, field_neg(2 * genus - 2), p_inv as int] + generator_traces(gens)
}

/// The generator index that a digest selects: its low 64 bits, reduced
/// modulo `4g`.
pub open spec fn path_index(digest: int, genus: int) -> u8 {
    ((digest % 0x1_0000_0000_0000_0000) % (4 * genus)) as u8
}

/// The path that a sequence of digests selects, one index per digest.
pub open spec fn path_from_digests(digests: Seq<int>, genus: int) -> Seq<u8> {
    Seq::new(digests.len(), |i: int| path_index(digests[i], genus))
}

/// The 128 bytes that encode four field elements, 32 bytes each, least
/// significant byte first.
pub open spec fn encoded(entries: [FieldElement; 4]) -> Seq<u8> {
    le_bytes(entries[0]@ as nat, 32) + le_bytes(entries[1]@ as nat, 32) + le_bytes(
        entries[2]@ as nat,
        32,
    ) + le_bytes(entries[3]@ as nat, 32)
}

/// The first element of every digest.
pub open spec fn first_elements(digests: Seq<[FieldElement; 4]>) -> Seq<FieldElement> {
    Seq::new(digests.len(), |i: int| digests[i][0])
}

/// Packs a byte string into field elements, 31 bytes to an element. The
/// empty string packs into the single element zero.
pub fn bytes_to_frs(bytes: &[u8]) -> (r: Vec<FieldElement>)
    ensures
        element_views(r@) == packed(bytes@),
{
    let len = bytes.len();
    let count: usize = if len == 0 {
        1
    } else {
        (len - 1) / 31 + 1
    };
    let mut out: Vec<FieldElement> = Vec::new();
    let mut j: usize = 0;
    while j < count
        invariant
            j <= count,
            len == bytes@.len(),
            count == chunk_count(len as int),
            out@.len() == j,
            forall|k: int| 0 <= k < j ==> (#[trigger] out@[k])@ == packed(bytes@)[k],
        decreases count - j,
    {
        let start = 31 * j;
        let end = if len - start > 31 {
            start + 31
        } else {
            len
        };
        out.push(FieldElement::from_chunk(bytes, start, end - start));
        j = j + 1;
    }
    assert(element_views(out@) =~= packed(bytes@));
    out
}

/// Views distribute over concatenation.
pub proof fn lemma_element_views_concat(left: Seq<FieldElement>, right: Seq<FieldElement>)
    ensures
        element_views(left + right) == element_views(left) + element_views(right),
{
    assert(element_views(left + right) =~= element_views(left) + element_views(right));
}

/// The field elements to absorb when deriving a seed from a label and two
/// byte strings.
pub fn seed_preimage(label: &[u8], data1: &[u8], data2: &[u8]) -> (r: Vec<FieldElement>)
    ensures
        element_views(r@) == seed_input(label@.len() as int, data1@, data2@),
{
    let mut out: Vec<FieldElement> = Vec::new();
    out.push(FieldElement::from_u64(label.len() as u64));
    let mut first = bytes_to_frs(data1);
    let mut second = bytes_to_frs(data2);
    proof {
        assert(element_views(out@) =~= seq![label@.len() as int]);
        lemma_element_views_concat(out@, first@);
        lemma_element_views_concat(out@ + first@, second@);
    }
    out.append(&mut first);
    out.append(&mut second);
    out
}

/// The field elements to absorb for position `position` of a path derived
/// from `seed`.
pub fn position_preimage(seed: &[FieldElement; 4], position: u64) -> (r: Vec<FieldElement>)
    ensures
        element_views(r@) == position_input(*seed, position as int),
{
    let mut out: Vec<FieldElement> = Vec::new();
    out.push(seed[0]);
    out.push(seed[1]);
    out.push(seed[2]);
    out.push(seed[3]);
    out.push(FieldElement::from_u64(position));
    assert(element_views(out@) =~= position_input(*seed, position as int));
    out
}

/// The field elements to absorb for every position of a path of
/// `PATH_LENGTH` indices derived from `seed`.
pub fn path_preimages(seed: &[FieldElement; 4]) -> (r: Vec<Vec<FieldElement>>)
    ensures
        r@.len() == PATH_LENGTH,
        forall|i: int|
            0 <= i < PATH_LENGTH ==> element_views((#[trigger] r@[i])@) == position_input(
                *seed,
                i,
            ),
{
    let mut out: Vec<Vec<FieldElement>> = Vec::new();
    let mut i: usize = 0;
    while i < PATH_LENGTH
        invariant
            i <= PATH_LENGTH,
            out@.len() == i,
            forall|k: int|
                0 <= k < i ==> element_views((#[trigger] out@[k])@) == position_input(*seed, k),
        decreases PATH_LENGTH - i,
    {
        out.push(position_preimage(seed, i as u64));
        i = i + 1;
    }
    out
}

/// The field elements to absorb when describing `manifold`.
pub fn descriptor_preimage(manifold: &HyperbolicManifold) -> (r: Vec<FieldElement>)
    ensures
        element_views(r@) == descriptor_input(
            manifold.spec_genus(),
            manifold.spec_p_inv(),
            manifold.spec_generators(),
        ),
{
    let genus = manifold.genus();
    let gens = manifold.generators();
    let mut out: Vec<FieldElement> = Vec::new();
    out.push(FieldElement::from_u64(genus as u64));
    out.push(FieldElement::from_u64(2 * (genus as u64) - 2).negated());
    out.push(FieldElement::from_u64(manifold.p_inv()));
    let ghost head = out@;
    let mut i: usize = 0;
    while i < gens.len()
        invariant
            i <= gens@.len(),
            out@.len() == 3 + i,
            out@.take(3) == head,
            forall|k: int| 0 <= k < i ==> (#[trigger] out@[3 + k])@ == mat_trace(gens@[k]@),
        decreases gens@.len() - i,
    {
        out.push(gens[i].trace());
        assert(out@.take(3) =~= head);
        i = i + 1;
    }
    proof {
        let want = descriptor_input(
            manifold.spec_genus(),
            manifold.spec_p_inv(),
            manifold.spec_generators(),
        );
        assert(out@.take(3) == head);
        assert(out@[0] == head[0] && out@[1] == head[1] && out@[2] == head[2]);
        assert forall|k: int| 0 <= k < want.len() implies element_views(out@)[k] == want[k] by {
            if k >= 3 {
                assert(out@[3 + (k - 3)]@ == mat_trace(gens@[k - 3]@));
            }
        }
        assert(element_views(out@) =~= want);
    }
    out
}

/// The generator index that `digest` selects for a surface of the given
/// genus.
pub fn index_from_digest(digest: &FieldElement, genus: u8) -> (r: u8)
    requires
        1 <= genus <= MAX_GENUS,
    ensures
        r == path_index(digest@, genus as int),
        r < 4 * genus,
{
    let low = digest.low_u64();
    (low % (4 * (genus as u64))) as u8
}

/// The path that `digests` select, one index per digest. Every index is
/// below `4g`.
pub fn generate_path(digests: &[FieldElement], genus: u8) -> (r: Vec<u8>)
    requires
        1 <= genus <= MAX_GENUS,
    ensures
        r@ == path_from_digests(element_views(digests@), genus as int),
        indices_valid(r@, genus as int),
{
    let mut path: Vec<u8> = Vec::new();
    let mut i: usize = 0;
    while i < digests.len()
        invariant
            i <= digests@.len(),
            1 <= genus <= MAX_GENUS,
            path@.len() == i,
            forall|k: int|
                0 <= k < i ==> (#[trigger] path@[k]) == path_index(digests@[k]@, genus as int)
                    && path@[k] < 4 * genus,
        decreases digests@.len() - i,
    {
        path.push(index_from_digest(&digests[i], genus));
        i = i + 1;
    }
    assert(path@ =~= path_from_digests(element_views(digests@), genus as int));
    path
}

/// The 128-byte encoding of four field elements.
pub fn encode_elements(entries: &[FieldElement; 4]) -> (r: Vec<u8>)
    ensures
        r@ == encoded(*entries),
{
    let mut out = entries[0].to_repr();
    let mut second = entries[1].to_repr();
    let mut third = entries[2].to_repr();
    let mut fourth = entries[3].to_repr();
    out.append(&mut second);
    out.append(&mut third);
    out.append(&mut fourth);
    out
}

/// The first element of every digest, in order.
pub fn first_of_each(digests: &[[FieldElement; 4]]) -> (r: Vec<FieldElement>)
    ensures
        r@ == first_elements(digests@),
{
    let mut out: Vec<FieldElement> = Vec::new();
    let mut i: usize = 0;
    while i < digests.len()
        invariant
            i <= digests@.len(),
            out@.len() == i,
            forall|k: int| 0 <= k < i ==> (#[trigger] out@[k]) == digests@[k][0],
        decreases digests@.len() - i,
    {
        out.push(digests[i][0]);
        i = i + 1;
    }
    assert(out@ =~= first_elements(digests@));
    out
}

/// A witness: the public matrices and commitments, and the two private
/// paths.
#[derive(Clone, Debug, PartialEq, Eq)]
pub struct Witness {
    /// The holonomy of `gamma`: the public key.
    pub h_pub: [FieldElement; 4],
    /// The holonomy of `gamma` followed by `delta`: the signature.
    pub h_sig: [FieldElement; 4],
    /// The commitment to the manifold's parameters.
    pub desc_m: [FieldElement; 4],
    /// The commitment to the message.
    pub m_hash: [FieldElement; 4],
    /// The key path.
    pub gamma: Vec<u8>,
    /// The message path.
    pub delta: Vec<u8>,
}

/// The key path that the given digests lead to.
pub open spec fn key_path(gamma_digests: Seq<FieldElement>, genus: int) -> Seq<u8> {
    normalize(path_from_digests(element_views(gamma_digests), genus), genus)
}

impl Witness {
    /// What holds of every witness that `new` builds for the given
    /// digests and manifold.
    pub open spec fn built_from(
        self,
        gamma_digests: Seq<FieldElement>,
        delta_digests: Seq<FieldElement>,
        m_hash: [FieldElement; 4],
        desc_m: [FieldElement; 4],
        manifold: &HyperbolicManifold,
    ) -> bool {
        let genus = manifold.spec_genus();
        let gens = manifold.spec_generators();
        &&& self.gamma@ == key_path(gamma_digests, genus)
        &&& self.delta@ == key_path(delta_digests, genus)
        &&& entries_view(self.h_pub) == holonomy(self.gamma@, gens, genus)
        &&& entries_view(self.h_sig) == holonomy(self.gamma@ + self.delta@, gens, genus)
        &&& self.m_hash == m_hash
        &&& self.desc_m == desc_m
    }

    /// The shape that every witness built by `new` has: two reduced paths
    /// of `PATH_LENGTH` valid indices, and two matrices of determinant one,
    /// the signature being the public key times the holonomy of `delta`.
    pub open spec fn well_shaped(self, manifold: &HyperbolicManifold) -> bool {
        let genus = manifold.spec_genus();
        let gens = manifold.spec_generators();
        &&& self.gamma@.len() == PATH_LENGTH
        &&& self.delta@.len() == PATH_LENGTH
        &&& indices_valid(self.gamma@, genus)
        &&& indices_valid(self.delta@, genus)
        &&& is_reduced(self.gamma@, genus)
        &&& is_reduced(self.delta@, genus)
        &&& mat_special(entries_view(self.h_pub))
        &&& mat_special(entries_view(self.h_sig))
        &&& entries_view(self.h_sig) == mat_mul(
            entries_view(self.h_pub),
            holonomy(self.delta@, gens, genus),
        )
    }

    /// Builds the witness from what the hash gave: one digest for every
    /// position of the key path and of the message path, the commitment to
    /// the message and the commitment to the manifold. Each path is the
    /// normal form of the path that its digests select; `h_pub` is the
    /// holonomy of `gamma`, and `h_sig` that of `gamma` followed by `delta`.
    pub fn new(
        gamma_digests: &[FieldElement],
        delta_digests: &[FieldElement],
        m_hash: [FieldElement; 4],
        desc_m: [FieldElement; 4],
        manifold: &HyperbolicManifold,
    ) -> (w: Self)
        ensures
            w.built_from(gamma_digests@, delta_digests@, m_hash, desc_m, manifold),
            w.well_shaped(manifold),
    {
        let genus = manifold.genus();
        let mut gamma = generate_path(gamma_digests, genus);
        ensure_reduced_path(&mut gamma, genus);
        let h_pub = holonomy_of_valid(gamma.as_slice(), manifold);
        let mut delta = generate_path(delta_digests, genus);
        ensure_reduced_path(&mut delta, genus);
        let mut combined: Vec<u8> = Vec::new();
        let mut gamma_copy = gamma.clone();
        let mut delta_copy = delta.clone();
        combined.append(&mut gamma_copy);
        combined.append(&mut delta_copy);
        proof {
            assert(combined@ =~= gamma@ + delta@);
            assert forall|i: int| 0 <= i < combined@.len() implies (#[trigger] combined@[i]) < 4
                * genus by {
                if i < gamma@.len() {
                    assert(combined@[i] == gamma@[i]);
                } else {
                    assert(combined@[i] == delta@[i - gamma@.len()]);
                }
            }
            lemma_holonomy_concat(
                gamma@,
                delta@,
                manifold.spec_generators(),
                manifold.spec_genus(),
            );
        }
        let h_sig = holonomy_of_valid(combined.as_slice(), manifold);
        Witness {
            h_pub: h_pub.entries(),
            h_sig: h_sig.entries(),
            desc_m,
            m_hash,
            gamma,
            delta,
        }
    }

    /// The sixteen public inputs of the proof, in the order that the
    /// circuit reads them: `h_pub`, `h_sig`, `desc_m`, `m_hash`.
    pub fn public_inputs(&self) -> (r: Vec<FieldElement>)
        ensures
            r@.len() == 16,
            forall|i: int| 0 <= i < 4 ==> r@[i] == self.h_pub[i],
            forall|i: int| 0 <= i < 4 ==> r@[4 + i] == self.h_sig[i],
            forall|i: int| 0 <= i < 4 ==> r@[8 + i] == self.desc_m[i],
            forall|i: int| 0 <= i < 4 ==> r@[12 + i] == self.m_hash[i],
    {
        let mut out: Vec<FieldElement> = Vec::new();
        out.push(self.h_pub[0]);
        out.push(self.h_pub[1]);
        out.push(self.h_pub[2]);
        out.push(self.h_pub[3]);
        out.push(self.h_sig[0]);
        out.push(self.h_sig[1]);
        out.push(self.h_sig[2]);
        out.push(self.h_sig[3]);
        out.push(self.desc_m[0]);
        out.push(self.desc_m[1]);
        out.push(self.desc_m[2]);
        out.push(self.desc_m[3]);
        out.push(self.m_hash[0]);
        out.push(self.m_hash[1]);
        out.push(self.m_hash[2]);
        out.push(self.m_hash[3]);
        out
    }
}

/// A witness is determined by what it is built from: two witnesses built
/// from the same digests, commitments and manifold have the same paths,
/// the same matrices and the same commitments.
pub proof fn lemma_witness_determined(
    first: Witness,
    second: Witness,
    gamma_digests: Seq<FieldElement>,
    delta_digests: Seq<FieldElement>,
    m_hash: [FieldElement; 4],
    desc_m: [FieldElement; 4],
    manifold: &HyperbolicManifold,
)
    requires
        first.built_from(gamma_digests, delta_digests, m_hash, desc_m, manifold),
        second.built_from(gamma_digests, delta_digests, m_hash, desc_m, manifold),
    ensures
        first.gamma@ == second.gamma@,
        first.delta@ == second.delta@,
        entries_view(first.h_pub) == entries_view(second.h_pub),
        entries_view(first.h_sig) == entries_view(second.h_sig),
        first.desc_m == second.desc_m,
        first.m_hash == second.m_hash,
{
}

/// The key path, and with it the public key, does not depend on what the
/// message path is derived from.
pub proof fn lemma_public_key_independent_of_delta(
    first: Witness,
    second: Witness,
    gamma_digests: Seq<FieldElement>,
    delta_first: Seq<FieldElement>,
    delta_second: Seq<FieldElement>,
    m_hash_first: [FieldElement; 4],
    m_hash_second: [FieldElement; 4],
    desc_m: [FieldElement; 4],
    manifold: &HyperbolicManifold,
)
    requires
        first.built_from(gamma_digests, delta_first, m_hash_first, desc_m, manifold),
        second.built_from(gamma_digests, delta_second, m_hash_second, desc_m, manifold),
    ensures
        first.gamma@ == second.gamma@,
        entries_view(first.h_pub) == entries_view(second.h_pub),
{
}

/// What a witness builder waits for.
#[derive(Clone, Copy, Debug, PartialEq, Eq)]
pub enum BuilderStage {
    /// The seed of the key path, the message commitment and the manifold
    /// commitment.
    Seeds,
    /// One digest for every position of the key path.
    GammaPath,
    /// The seed of the message path.
    DeltaSeed,
    /// One digest for every position of the message path.
    DeltaPath,
}

/// Why a builder refused a step.
#[derive(Clone, Copy, Debug, PartialEq, Eq)]
pub enum WitnessError {
    /// The number of digests handed in is not the number of requests that
    /// were handed out.
    UnexpectedDigests,
}

/// A witness in the making. The builder decides what has to be hashed next
/// and what to do with the digests; whoever holds it does the hashing.
#[derive(Debug)]
pub struct WitnessBuilder {
    pub stage: BuilderStage,
    pub message: Vec<u8>,
    pub m_hash: [FieldElement; 4],
    pub desc_m: [FieldElement; 4],
    pub gamma_digests: Vec<FieldElement>,
}

/// What a step of the builder comes to.
#[derive(Debug)]
pub enum BuilderStep {
    /// Hash each request, in order, and hand the digests to the builder.
    Hash { builder: WitnessBuilder, requests: Vec<Vec<FieldElement>> },
    /// The witness is complete.
    Done { witness: Witness },
}

/// The number of digests that a stage waits for.
pub open spec fn expected_digests(stage: BuilderStage) -> int {
    match stage {
        BuilderStage::Seeds => 3,
        BuilderStage::GammaPath => PATH_LENGTH as int,
        BuilderStage::DeltaSeed => 1,
        BuilderStage::DeltaPath => PATH_LENGTH as int,
    }
}

/// The requests are those for every position of a path derived from
/// `seed`.
pub open spec fn requests_path(requests: Seq<Vec<FieldElement>>, seed: [FieldElement; 4]) -> bool {
    &&& requests.len() == PATH_LENGTH
    &&& forall|i: int|
        0 <= i < PATH_LENGTH ==> element_views((#[trigger] requests[i])@) == position_input(seed, i)
}

/// The 128 bytes that encode a matrix of residues, entry by entry.
pub open spec fn encoded_matrix(m: Mat) -> Seq<u8> {
    le_bytes(m.a as nat, 32) + le_bytes(m.b as nat, 32) + le_bytes(m.c as nat, 32) + le_bytes(
        m.d as nat,
        32,
    )
}

impl WitnessBuilder {
    /// The builder keeps what it held, but for its stage.
    pub open spec fn advanced_from(self, before: WitnessBuilder, stage: BuilderStage) -> bool {
        &&& self.stage == stage
        &&& self.message@ == before.message@
        &&& self.m_hash == before.m_hash
        &&& self.desc_m == before.desc_m
        &&& self.gamma_digests@ == before.gamma_digests@
    }

    /// What a step gives when the digests are as many as were asked for.
    pub open spec fn step_gives(
        self,
        digests: Seq<[FieldElement; 4]>,
        manifold: &HyperbolicManifold,
        step: BuilderStep,
    ) -> bool {
        match self.stage {
            BuilderStage::Seeds => {
                &&& step matches BuilderStep::Hash { builder, requests }
                &&& builder.stage == BuilderStage::GammaPath
                &&& builder.message@ == self.message@
                &&& builder.m_hash == digests[1]
                &&& builder.desc_m == digests[2]
                &&& requests_path(requests@, digests[0])
            },
            BuilderStage::GammaPath => {
                &&& step matches BuilderStep::Hash { builder, requests }
                &&& builder.stage == BuilderStage::DeltaSeed
                &&& builder.message@ == self.message@
                &&& builder.m_hash == self.m_hash
                &&& builder.desc_m == self.desc_m
                &&& builder.gamma_digests@ == first_elements(digests)
                &&& requests@.len() == 1
                &&& element_views(requests@[0]@) == seed_input(
                    DELTA_LABEL@.len() as int,
                    self.message@,
                    encoded_matrix(
                        holonomy(
                            key_path(first_elements(digests), manifold.spec_genus()),
                            manifold.spec_generators(),
                            manifold.spec_genus(),
                        ),
                    ),
                )
            },
            BuilderStage::DeltaSeed => {
                &&& step matches BuilderStep::Hash { builder, requests }
                &&& builder.advanced_from(self, BuilderStage::DeltaPath)
                &&& requests_path(requests@, digests[0])
            },
            BuilderStage::DeltaPath => {
                &&& step matches BuilderStep::Done { witness }
                &&& witness.built_from(
                    self.gamma_digests@,
                    first_elements(digests),
                    self.m_hash,
                    self.desc_m,
                    manifold,
                )
                &&& witness.well_shaped(manifold)
            },
        }
    }

    /// Begins a witness for `message` under the key material
    /// `private_seed`. Three things are to be hashed first: the seed of the
    /// key path, the message, and the description of the manifold.
    pub fn start(message: &[u8], private_seed: &[u8], manifold: &HyperbolicManifold) -> (r: (
        WitnessBuilder,
        Vec<Vec<FieldElement>>,
    ))
        ensures
            r.0.stage == BuilderStage::Seeds,
            r.0.message@ == message@,
            r.1@.len() == 3,
            element_views(r.1@[0]@) == seed_input(
                GAMMA_LABEL@.len() as int,
                message@,
                private_seed@,
            ),
            element_views(r.1@[1]@) == packed(message@),
            element_views(r.1@[2]@) == descriptor_input(
                manifold.spec_genus(),
                manifold.spec_p_inv(),
                manifold.spec_generators(),
            ),
    {
        let label = GAMMA_LABEL;
        let mut requests: Vec<Vec<FieldElement>> = Vec::new();
        requests.push(seed_preimage(label.as_slice(), message, private_seed));
        requests.push(bytes_to_frs(message));
        requests.push(descriptor_preimage(manifold));
        let zero = FieldElement::zero();
        let builder = WitnessBuilder {
            stage: BuilderStage::Seeds,
            message: vstd::slice::slice_to_vec(message),
            m_hash: [zero, zero, zero, zero],
            desc_m: [zero, zero, zero, zero],
            gamma_digests: Vec::new(),
        };
        (builder, requests)
    }

    /// Takes the digests of the requests handed out last, and says what to
    /// hash next or hands out the finished witness. Digests in another
    /// number than requested are refused.
    pub fn step(self, digests: &[[FieldElement; 4]], manifold: &HyperbolicManifold) -> (r: Result<
        BuilderStep,
        WitnessError,
    >)
        ensures
            digests@.len() != expected_digests(self.stage) ==> r == Err::<
                BuilderStep,
                WitnessError,
            >(WitnessError::UnexpectedDigests),
            digests@.len() == expected_digests(self.stage) ==> r is Ok && self.step_gives(
                digests@,
                manifold,
                r.unwrap(),
            ),
    {
        match self.stage {
            BuilderStage::Seeds => {
                if digests.len() != 3 {
                    return Err(WitnessError::UnexpectedDigests);
                }
                let requests = path_preimages(&digests[0]);
                let builder = WitnessBuilder {
                    stage: BuilderStage::GammaPath,
                    message: self.message,
                    m_hash: digests[1],
                    desc_m: digests[2],
                    gamma_digests: self.gamma_digests,
                };
                Ok(BuilderStep::Hash { builder, requests })
            },
            BuilderStage::GammaPath => {
                if digests.len() != PATH_LENGTH {
                    return Err(WitnessError::UnexpectedDigests);
                }
                let genus = manifold.genus();
                let gamma_digests = first_of_each(digests);
                let mut gamma = generate_path(gamma_digests.as_slice(), genus);
                ensure_reduced_path(&mut gamma, genus);
                let h_pub = holonomy_of_valid(gamma.as_slice(), manifold).entries();
                let key_bytes = encode_elements(&h_pub);
                let label = DELTA_LABEL;
                let mut requests: Vec<Vec<FieldElement>> = Vec::new();
                requests.push(
                    seed_preimage(label.as_slice(), self.message.as_slice(), key_bytes.as_slice()),
                );
                let builder = WitnessBuilder {
                    stage: BuilderStage::DeltaSeed,
                    message: self.message,
                    m_hash: self.m_hash,
                    desc_m: self.desc_m,
                    gamma_digests,
                };
                Ok(BuilderStep::Hash { builder, requests })
            },
            BuilderStage::DeltaSeed => {
                if digests.len() != 1 {
                    return Err(WitnessError::UnexpectedDigests);
                }
                let requests = path_preimages(&digests[0]);
                let builder = WitnessBuilder {
                    stage: BuilderStage::DeltaPath,
                    message: self.message,
                    m_hash: self.m_hash,
                    desc_m: self.desc_m,
                    gamma_digests: self.gamma_digests,
                };
                Ok(BuilderStep::Hash { builder, requests })
            },
            BuilderStage::DeltaPath => {
                if digests.len() != PATH_LENGTH {
                    return Err(WitnessError::UnexpectedDigests);
                }
                let delta_digests = first_of_each(digests);
                let witness = Witness::new(
                    self.gamma_digests.as_slice(),
                    delta_digests.as_slice(),
                    self.m_hash,
                    self.desc_m,
                    manifold,
                );
                Ok(BuilderStep::Done { witness })
            },
        }
    }
}

} // verus!
