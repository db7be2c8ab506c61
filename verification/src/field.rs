//! The scalar field of BN254 as plain data.
//!
//! A `FieldElement` holds the canonical residue of a field element in four
//! 64-bit limbs. Its view is that residue as an integer. Constants, byte
//! encodings and comparisons are computed here; sums, products and
//! inverses are computed by `halo2curves` and trusted to be the residues
//! that the contracts below name.
use vstd::prelude::*;
use ff::Field;
use ff::PrimeField;
use halo2curves::bn256::Fr;
use crate::encoding::le_bytes;
use crate::encoding::le_value;
use crate::encoding::lemma_le_bytes_len;
use crate::encoding::lemma_le_bytes_low;
use crate::encoding::lemma_le_bytes_split;
use crate::encoding::lemma_le_value_bound;
use crate::encoding::lemma_le_value_concat;
use crate::encoding::lemma_le_value_of_le_bytes;
use crate::encoding::lemma_pow256_monotone;
use crate::encoding::lemma_pow256_values;
use crate::encoding::lemma_pow256_wide;
use crate::encoding::pow256;
use crate::encoding::push_word_le;
use crate::encoding::word_from_le;

verus! {

/// The order of the field: the prime
/// 21888242871839275222246405745257275088548364400416034343698204186575808495617.
pub open spec fn modulus() -> int {
    0x30644e72e131a029b85045b68181585d2833e84879b9709143e1f593f0000001int
}

/// The sum of two residues.
pub open spec fn field_add(x: int, y: int) -> int {
    (x + y) % modulus()
}

/// The difference of two residues.
pub open spec fn field_sub(x: int, y: int) -> int {
    (x - y) % modulus()
}

/// The product of two residues.
pub open spec fn field_mul(x: int, y: int) -> int {
    (x * y) % modulus()
}

/// The additive inverse of a residue.
pub open spec fn field_neg(x: int) -> int {
    (-x) % modulus()
}

/// `i` is the residue that multiplies `x` to one.
pub open spec fn is_inverse(x: int, i: int) -> bool {
    0 <= i < modulus() && (x * i) % modulus() == 1
}

/// The multiplicative inverse of `x`, where it has one.
pub open spec fn field_inv(x: int) -> int {
    choose|i: int| is_inverse(x, i)
}

/// A residue has at most one inverse.
pub proof fn lemma_inverse_unique(x: int, i: int, j: int)
    requires
        is_inverse(x, i),
        is_inverse(x, j),
    ensures
        i == j,
{
    let p = modulus();
    // i = i (x j) = (i x) j = j, all modulo p
    vstd::arithmetic::div_mod::lemma_mul_mod_noop_right(i, x * j, p);
    assert(i * 1 == i);
    assert((i * (x * j)) % p == i % p);
    vstd::arithmetic::div_mod::lemma_mul_mod_noop_left(i * x, j, p);
    assert((i * x) % p == 1) by {
        assert(i * x == x * i) by (nonlinear_arith);
    }
    assert(1 * j == j);
    assert(((i * x) * j) % p == j % p);
    assert(i * (x * j) == (i * x) * j) by (nonlinear_arith);
    vstd::arithmetic::div_mod::lemma_small_mod(i as nat, p as nat);
    vstd::arithmetic::div_mod::lemma_small_mod(j as nat, p as nat);
}

/// Whoever holds an inverse of `x` holds `field_inv(x)`.
pub proof fn lemma_inverse_is_field_inv(x: int, i: int)
    requires
        is_inverse(x, i),
    ensures
        field_inv(x) == i,
{
    lemma_inverse_unique(x, i, field_inv(x));
}

/// Reading the 32-byte encoding of a residue gives the residue back.
pub proof fn lemma_repr_round_trip(x: int)
    requires
        0 <= x < modulus(),
    ensures
        le_bytes(x as nat, 32).len() == 32,
        le_value(le_bytes(x as nat, 32)) == x,
{
    lemma_le_bytes_len(x as nat, 32);
    lemma_le_value_of_le_bytes(x as nat, 32);
    lemma_pow256_wide();
    vstd::arithmetic::div_mod::lemma_small_mod(x as nat, pow256(32));
}

/// The integer that four 64-bit limbs spell, least significant limb first.
pub open spec fn limbs_to_int(limbs: [u64; 4]) -> int {
    limbs[0] as int + 0x1_0000_0000_0000_0000 * limbs[1] as int
        + 0x1_0000_0000_0000_0000_0000_0000_0000_0000 * limbs[2] as int
        + 0x1_0000_0000_0000_0000_0000_0000_0000_0000_0000_0000_0000_0000 * limbs[3] as int
}

/// An element of the field, held as the four little-endian limbs of its
/// canonical residue.
#[derive(Clone, Copy, Debug, PartialEq, Eq)]
pub struct FieldElement {
    limbs: [u64; 4],
}

impl View for FieldElement {
    type V = int;

    /// The residue, in `0 .. modulus()`.
    closed spec fn view(&self) -> int {
        self.limbs_value() % modulus()
    }
}

impl FieldElement {
    /// The integer that the four limbs spell.
    pub closed spec fn limbs_value(self) -> int {
        limbs_to_int(self.limbs)
    }

    /// Every element that code can hold is stored as its canonical residue.
    #[verifier::type_invariant]
    closed spec fn canonical(self) -> bool {
        self.limbs_value() < modulus()
    }

    /// The view of any element is a residue.
    pub proof fn lemma_view_range(self)
        ensures
            0 <= self@ < modulus(),
    {
    }

    /// The additive identity.
    pub fn zero() -> (r: Self)
        ensures
            r@ == 0,
    {
        FieldElement { limbs: [0, 0, 0, 0] }
    }

    /// The multiplicative identity.
    pub fn one() -> (r: Self)
        ensures
            r@ == 1,
    {
        FieldElement { limbs: [1, 0, 0, 0] }
    }

    /// The element that a machine word names.
    pub fn from_u64(x: u64) -> (r: Self)
        ensures
            r@ == x,
    {
        FieldElement { limbs: [x, 0, 0, 0] }
    }

    /// The element whose residue the four limbs spell, if they spell one:
    /// a number at or above the modulus is no residue.
    pub fn from_limbs(limbs: [u64; 4]) -> (r: Option<Self>)
        ensures
            r is Some <==> limbs_to_int(limbs) < modulus(),
            r is Some ==> r.unwrap()@ == limbs_to_int(limbs),
    {
        let l0 = limbs[0];
        let l1 = limbs[1];
        let l2 = limbs[2];
        let l3 = limbs[3];
        let below = l3 < 0x30644e72e131a029 || (l3 == 0x30644e72e131a029 && (l2
            < 0xb85045b68181585d || (l2 == 0xb85045b68181585d && (l1 < 0x2833e84879b97091 || (l1
            == 0x2833e84879b97091 && l0 < 0x43e1f593f0000001)))));
        if below {
            Some(FieldElement { limbs: [l0, l1, l2, l3] })
        } else {
            None
        }
    }

    /// Reads a 32-byte little-endian encoding. Strings of another length,
    /// and strings that spell a number at or above the modulus, are not
    /// encodings of any element.
    pub fn from_repr(bytes: &[u8]) -> (r: Option<Self>)
        ensures
            r is Some <==> bytes@.len() == 32 && le_value(bytes@) < modulus(),
            r is Some ==> r.unwrap()@ == le_value(bytes@),
    {
        if bytes.len() != 32 {
            return None;
        }
        let l0 = word_from_le(bytes, 0, 8);
        let l1 = word_from_le(bytes, 8, 8);
        let l2 = word_from_le(bytes, 16, 8);
        let l3 = word_from_le(bytes, 24, 8);
        proof {
            let s0 = bytes@.subrange(0, 8);
            let s1 = bytes@.subrange(8, 16);
            let s2 = bytes@.subrange(16, 24);
            let s3 = bytes@.subrange(24, 32);
            assert(bytes@ =~= s0 + (s1 + (s2 + s3)));
            lemma_words_join(s0, s1, s2, s3);
        }
        let limbs = [l0, l1, l2, l3];
        assert(limbs_to_int(limbs) == le_value(bytes@));
        FieldElement::from_limbs(limbs)
    }

    /// The element that up to 31 bytes spell, least significant byte first.
    /// Such a number is always below the modulus.
    pub fn from_chunk(bytes: &[u8], start: usize, count: usize) -> (r: Self)
        requires
            count <= 31,
            start + count <= bytes@.len(),
        ensures
            r@ == le_value(bytes@.subrange(start as int, start + count)),
    {
        let total = bytes.len();
        let n0: usize = if count < 8 {
            count
        } else {
            8
        };
        let n1: usize = if count - n0 < 8 {
            count - n0
        } else {
            8
        };
        let n2: usize = if count - n0 - n1 < 8 {
            count - n0 - n1
        } else {
            8
        };
        let n3: usize = count - n0 - n1 - n2;
        let l0 = word_from_le(bytes, start, n0);
        let l1 = word_from_le(bytes, start + n0, n1);
        let l2 = word_from_le(bytes, start + n0 + n1, n2);
        let l3 = word_from_le(bytes, start + n0 + n1 + n2, n3);
        proof {
            let chunk = bytes@.subrange(start as int, start + count);
            let s0 = bytes@.subrange(start as int, start + n0);
            let s1 = bytes@.subrange(start + n0, start + n0 + n1);
            let s2 = bytes@.subrange(start + n0 + n1, start + n0 + n1 + n2);
            let s3 = bytes@.subrange(start + n0 + n1 + n2, start + count);
            assert(chunk =~= s0 + (s1 + (s2 + s3)));
            lemma_words_join(s0, s1, s2, s3);
            lemma_le_value_bound(chunk);
            lemma_pow256_monotone(chunk.len(), 31);
            lemma_pow256_wide();
        }
        let limbs = [l0, l1, l2, l3];
        assert(limbs_to_int(limbs) == le_value(bytes@.subrange(start as int, start + count)));
        FieldElement::from_limbs(limbs).unwrap()
    }

    /// The 32-byte little-endian encoding of the residue.
    pub fn to_repr(&self) -> (r: Vec<u8>)
        ensures
            r@ == le_bytes(self@ as nat, 32),
    {
        let mut out: Vec<u8> = Vec::new();
        push_word_le(&mut out, self.limbs[0]);
        push_word_le(&mut out, self.limbs[1]);
        push_word_le(&mut out, self.limbs[2]);
        push_word_le(&mut out, self.limbs[3]);
        proof {
            use_type_invariant(self);
            lemma_pow256_values();
            let v0 = self@ as nat;
            let v1 = (self.limbs[1] as int + 0x1_0000_0000_0000_0000 * self.limbs[2] as int
                + 0x1_0000_0000_0000_0000_0000_0000_0000_0000 * self.limbs[3] as int) as nat;
            let v2 = (self.limbs[2] as int + 0x1_0000_0000_0000_0000 * self.limbs[3] as int) as nat;
            let v3 = self.limbs[3] as nat;
            assert(v0 == self.limbs[0] as nat + pow256(8) * v1);
            assert(v1 == self.limbs[1] as nat + pow256(8) * v2);
            assert(v2 == self.limbs[2] as nat + pow256(8) * v3);
            lemma_le_bytes_split(v0, 8, 24);
            lemma_le_bytes_low(self.limbs[0] as nat, v1, 8);
            lemma_le_bytes_split(v1, 8, 16);
            lemma_le_bytes_low(self.limbs[1] as nat, v2, 8);
            lemma_le_bytes_split(v2, 8, 8);
            lemma_le_bytes_low(self.limbs[2] as nat, v3, 8);
            assert(v0 / pow256(8) == v1);
            assert(v1 / pow256(8) == v2);
            assert(v2 / pow256(8) == v3);
            let b0 = le_bytes(self.limbs[0] as nat, 8);
            let b1 = le_bytes(self.limbs[1] as nat, 8);
            let b2 = le_bytes(self.limbs[2] as nat, 8);
            let b3 = le_bytes(self.limbs[3] as nat, 8);
            assert(out@ =~= ((Seq::<u8>::empty() + b0 + b1) + b2) + b3);
            assert(((Seq::<u8>::empty() + b0 + b1) + b2) + b3 =~= b0 + (b1 + (b2 + b3)));
        }
        out
    }

    /// The low 64 bits of the residue.
    pub fn low_u64(&self) -> (r: u64)
        ensures
            r == self@ % 0x1_0000_0000_0000_0000,
    {
        proof {
            use_type_invariant(self);
        }
        self.limbs[0]
    }

    /// Whether two elements are the same residue.
    pub fn is_equal(&self, other: &Self) -> (r: bool)
        ensures
            r == (self@ == other@),
    {
        proof {
            use_type_invariant(self);
            use_type_invariant(other);
        }
        self.limbs[0] == other.limbs[0] && self.limbs[1] == other.limbs[1] && self.limbs[2] == other.limbs[2] && self.limbs[3] == other.limbs[3]
    }

    /// Whether the element is the additive identity.
    pub fn is_zero(&self) -> (r: bool)
        ensures
            r == (self@ == 0),
    {
        proof {
            use_type_invariant(self);
        }
        self.limbs[0] == 0 && self.limbs[1] == 0 && self.limbs[2] == 0 && self.limbs[3] == 0
    }

    /// The sum of two elements.
    pub fn plus(&self, other: &Self) -> (r: Self)
        ensures
            r@ == field_add(self@, other@),
    {
        fr_add(self, other)
    }

    /// The difference of two elements.
    pub fn minus(&self, other: &Self) -> (r: Self)
        ensures
            r@ == field_sub(self@, other@),
    {
        fr_sub(self, other)
    }

    /// The product of two elements.
    pub fn times(&self, other: &Self) -> (r: Self)
        ensures
            r@ == field_mul(self@, other@),
    {
        fr_mul(self, other)
    }

    /// The additive inverse of an element.
    pub fn negated(&self) -> (r: Self)
        ensures
            r@ == field_neg(self@),
    {
        fr_neg(self)
    }

    /// The multiplicative inverse of an element; zero has none.
    pub fn inverted(&self) -> (r: Option<Self>)
        ensures
            r is None <==> self@ == 0,
            r is Some ==> r.unwrap()@ == field_inv(self@) && is_inverse(self@, r.unwrap()@),
    {
        let r = fr_invert(self);
        proof {
            if r is Some {
                lemma_inverse_is_field_inv(self@, r.unwrap()@);
            }
        }
        r
    }
}

/// Four adjacent groups of bytes, each a full word unless nothing follows
/// it, spell the number whose limbs they are.
proof fn lemma_words_join(s0: Seq<u8>, s1: Seq<u8>, s2: Seq<u8>, s3: Seq<u8>)
    requires
        s0.len() <= 8,
        s1.len() <= 8,
        s2.len() <= 8,
        s1.len() > 0 ==> s0.len() == 8,
        s2.len() > 0 ==> s1.len() == 8,
        s3.len() > 0 ==> s2.len() == 8,
    ensures
        le_value(s0 + (s1 + (s2 + s3))) == le_value(s0) + 0x1_0000_0000_0000_0000 * le_value(s1)
            + 0x1_0000_0000_0000_0000_0000_0000_0000_0000 * le_value(s2)
            + 0x1_0000_0000_0000_0000_0000_0000_0000_0000_0000_0000_0000_0000 * le_value(s3),
{
    lemma_word_join(s2, s3);
    lemma_word_join(s1, s2 + s3);
    lemma_word_join(s0, s1 + (s2 + s3));
}

/// Two adjacent groups of bytes, the first a full word unless nothing
/// follows it, spell the first plus 2^64 times the second.
proof fn lemma_word_join(a: Seq<u8>, b: Seq<u8>)
    requires
        a.len() <= 8,
        b.len() > 0 ==> a.len() == 8,
    ensures
        le_value(a + b) == le_value(a) + 0x1_0000_0000_0000_0000 * le_value(b),
{
    lemma_le_value_concat(a, b);
    lemma_pow256_values();
    if b.len() == 0 {
        assert(pow256(a.len()) * le_value(b) == 0) by (nonlinear_arith)
            requires
                le_value(b) == 0,
        ;
    }
}

/// `Fr::add` of halo2curves, on elements made by `Fr::from_raw` and read back
/// with `PrimeField::to_repr`: the result is the canonical residue of the sum.
#[verifier::external_body]
fn fr_add(a: &FieldElement, b: &FieldElement) -> (r: FieldElement)
    ensures
        r@ == field_add(a@, b@),
{
    let repr = (Fr::from_raw(a.limbs) + Fr::from_raw(b.limbs)).to_repr();
    let w = repr.as_ref();
    FieldElement {
        limbs: [
            u64::from_le_bytes(w[0..8].try_into().unwrap()),
            u64::from_le_bytes(w[8..16].try_into().unwrap()),
            u64::from_le_bytes(w[16..24].try_into().unwrap()),
            u64::from_le_bytes(w[24..32].try_into().unwrap()),
        ],
    }
}

/// `Fr::sub` of halo2curves, on elements made by `Fr::from_raw` and read back
/// with `PrimeField::to_repr`: the result is the canonical residue of the difference.
#[verifier::external_body]
fn fr_sub(a: &FieldElement, b: &FieldElement) -> (r: FieldElement)
    ensures
        r@ == field_sub(a@, b@),
{
    let repr = (Fr::from_raw(a.limbs) - Fr::from_raw(b.limbs)).to_repr();
    let w = repr.as_ref();
    FieldElement {
        limbs: [
            u64::from_le_bytes(w[0..8].try_into().unwrap()),
            u64::from_le_bytes(w[8..16].try_into().unwrap()),
            u64::from_le_bytes(w[16..24].try_into().unwrap()),
            u64::from_le_bytes(w[24..32].try_into().unwrap()),
        ],
    }
}

/// `Fr::mul` of halo2curves, on elements made by `Fr::from_raw` and read back
/// with `PrimeField::to_repr`: the result is the canonical residue of the product.
#[verifier::external_body]
fn fr_mul(a: &FieldElement, b: &FieldElement) -> (r: FieldElement)
    ensures
        r@ == field_mul(a@, b@),
{
    let repr = (Fr::from_raw(a.limbs) * Fr::from_raw(b.limbs)).to_repr();
    let w = repr.as_ref();
    FieldElement {
        limbs: [
            u64::from_le_bytes(w[0..8].try_into().unwrap()),
            u64::from_le_bytes(w[8..16].try_into().unwrap()),
            u64::from_le_bytes(w[16..24].try_into().unwrap()),
            u64::from_le_bytes(w[24..32].try_into().unwrap()),
        ],
    }
}

/// `Fr::neg` of halo2curves, on an element made by `Fr::from_raw` and read back
/// with `PrimeField::to_repr`: the result is the canonical residue of the
/// additive inverse.
#[verifier::external_body]
fn fr_neg(a: &FieldElement) -> (r: FieldElement)
    ensures
        r@ == field_neg(a@),
{
    let repr = (-Fr::from_raw(a.limbs)).to_repr();
    let w = repr.as_ref();
    FieldElement {
        limbs: [
            u64::from_le_bytes(w[0..8].try_into().unwrap()),
            u64::from_le_bytes(w[8..16].try_into().unwrap()),
            u64::from_le_bytes(w[16..24].try_into().unwrap()),
            u64::from_le_bytes(w[24..32].try_into().unwrap()),
        ],
    }
}

/// `Field::invert` of halo2curves' `Fr`: it fails on zero and on nothing
/// else, and what it returns multiplies the argument to one.
#[verifier::external_body]
fn fr_invert(a: &FieldElement) -> (r: Option<FieldElement>)
    ensures
        r is None <==> a@ == 0,
        r is Some ==> is_inverse(a@, r.unwrap()@),
{
    let inverse: Option<Fr> = Fr::from_raw(a.limbs).invert().into();
    let repr = inverse?.to_repr();
    let w = repr.as_ref();
    Some(FieldElement {
        limbs: [
            u64::from_le_bytes(w[0..8].try_into().unwrap()),
            u64::from_le_bytes(w[8..16].try_into().unwrap()),
            u64::from_le_bytes(w[16..24].try_into().unwrap()),
            u64::from_le_bytes(w[24..32].try_into().unwrap()),
        ],
    })
}

} // verus!
