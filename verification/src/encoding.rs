//! Little-endian byte strings and the numbers they spell.
//!
//! Field elements travel as 32-byte little-endian strings, and arbitrary
//! byte strings are packed into field elements 31 bytes at a time. Both
//! directions are stated here over two spec functions, `le_value` and
//! `le_bytes`, and the word-sized building blocks are implemented.
use vstd::prelude::*;

verus! {

/// 256 raised to the power `n`.
pub open spec fn pow256(n: nat) -> nat
    decreases n,
{
    if n == 0 {
        1
    } else {
        256 * pow256((n - 1) as nat)
    }
}

/// The number spelled by `bytes`, least significant byte first.
pub open spec fn le_value(bytes: Seq<u8>) -> nat
    decreases bytes.len(),
{
    if bytes.len() == 0 {
        0
    } else {
        bytes[0] as nat + 256 * le_value(bytes.drop_first())
    }
}

/// The `count` low bytes of `v`, least significant byte first.
pub open spec fn le_bytes(v: nat, count: nat) -> Seq<u8>
    decreases count,
{
    if count == 0 {
        Seq::empty()
    } else {
        seq![(v % 256) as u8] + le_bytes(v / 256, (count - 1) as nat)
    }
}

/// The powers of 256 that word and element boundaries fall on.
pub proof fn lemma_pow256_values()
    ensures
        pow256(0) == 1,
        pow256(1) == 0x100,
        pow256(2) == 0x1_0000,
        pow256(3) == 0x100_0000,
        pow256(4) == 0x1_0000_0000,
        pow256(5) == 0x100_0000_0000,
        pow256(6) == 0x1_0000_0000_0000,
        pow256(7) == 0x100_0000_0000_0000,
        pow256(8) == 0x1_0000_0000_0000_0000,
{
    reveal_with_fuel(pow256, 9);
}

/// `pow256` turns sums of exponents into products.
pub proof fn lemma_pow256_add(a: nat, b: nat)
    ensures
        pow256(a + b) == pow256(a) * pow256(b),
    decreases a,
{
    if a > 0 {
        lemma_pow256_add((a - 1) as nat, b);
        assert(pow256(a + b) == 256 * pow256((a - 1 + b) as nat));
        assert(256 * (pow256((a - 1) as nat) * pow256(b)) == (256 * pow256((a - 1) as nat))
            * pow256(b)) by (nonlinear_arith);
    } else {
        assert(pow256(a) * pow256(b) == pow256(b)) by (nonlinear_arith)
            requires
                pow256(a) == 1,
        ;
    }
}

/// The word and element boundaries above one word.
pub proof fn lemma_pow256_wide()
    ensures
        pow256(16) == 0x1_0000_0000_0000_0000_0000_0000_0000_0000,
        pow256(24) == 0x1_0000_0000_0000_0000_0000_0000_0000_0000_0000_0000_0000_0000,
        pow256(31)
            == 0x100_0000_0000_0000_0000_0000_0000_0000_0000_0000_0000_0000_0000_0000_0000_0000,
        pow256(32)
            == 0x1_0000_0000_0000_0000_0000_0000_0000_0000_0000_0000_0000_0000_0000_0000_0000_0000,
{
    lemma_pow256_values();
    lemma_pow256_add(8, 8);
    lemma_pow256_add(16, 8);
    lemma_pow256_add(24, 7);
    lemma_pow256_add(24, 8);
}

/// A string of `n` bytes spells a number below `256^n`.
pub proof fn lemma_le_value_bound(bytes: Seq<u8>)
    ensures
        le_value(bytes) < pow256(bytes.len()),
    decreases bytes.len(),
{
    if bytes.len() > 0 {
        lemma_le_value_bound(bytes.drop_first());
    }
}

/// The value of a concatenation: the second part is shifted past the first.
pub proof fn lemma_le_value_concat(a: Seq<u8>, b: Seq<u8>)
    ensures
        le_value(a + b) == le_value(a) + pow256(a.len()) * le_value(b),
    decreases a.len(),
{
    if a.len() == 0 {
        assert(a + b =~= b);
        assert(pow256(0) * le_value(b) == le_value(b)) by (nonlinear_arith)
            requires
                pow256(0) == 1,
        ;
    } else {
        let rest = a.drop_first();
        lemma_le_value_concat(rest, b);
        assert((a + b).drop_first() =~= rest + b);
        let p = pow256(rest.len());
        let x = le_value(rest);
        let y = le_value(b);
        assert(256 * (x + p * y) == 256 * x + (256 * p) * y) by (nonlinear_arith);
    }
}

/// `le_bytes` has the length asked for.
pub proof fn lemma_le_bytes_len(v: nat, count: nat)
    ensures
        le_bytes(v, count).len() == count,
    decreases count,
{
    if count > 0 {
        lemma_le_bytes_len(v / 256, (count - 1) as nat);
    }
}

/// Reading back what `le_bytes` wrote gives the value modulo `256^count`.
pub proof fn lemma_le_value_of_le_bytes(v: nat, count: nat)
    ensures
        le_value(le_bytes(v, count)) == v % pow256(count),
    decreases count,
{
    if count > 0 {
        let q = v / 256;
        let rest = le_bytes(q, (count - 1) as nat);
        lemma_le_value_of_le_bytes(q, (count - 1) as nat);
        let s = le_bytes(v, count);
        assert(s.drop_first() =~= rest);
        assert(s[0] == (v % 256) as u8);
        let p = pow256((count - 1) as nat);
        // v = 256 q + r, hence v mod 256p = 256 (q mod p) + r
        lemma_pow256_positive((count - 1) as nat);
        vstd::arithmetic::div_mod::lemma_fundamental_div_mod(q as int, p as int);
        let qq = q / p;
        let qr = q % p;
        assert(v == (256 * p) * qq + (256 * qr + v % 256)) by (nonlinear_arith)
            requires
                q == p * qq + qr,
                v == 256 * q + v % 256,
        ;
        vstd::arithmetic::div_mod::lemma_fundamental_div_mod_converse(
            v as int,
            (256 * p) as int,
            qq as int,
            (256 * qr + v % 256) as int,
        );
    } else {
        assert(le_bytes(v, count) =~= Seq::<u8>::empty());
    }
}

/// Every power of 256 is positive.
pub proof fn lemma_pow256_positive(n: nat)
    ensures
        pow256(n) > 0,
    decreases n,
{
    if n > 0 {
        lemma_pow256_positive((n - 1) as nat);
    }
}

/// The low `count` bytes ignore whatever lies above them.
pub proof fn lemma_le_bytes_low(x: nat, y: nat, count: nat)
    ensures
        le_bytes(x + pow256(count) * y, count) == le_bytes(x, count),
    decreases count,
{
    if count > 0 {
        let p = pow256((count - 1) as nat);
        let t = p * y;
        assert(pow256(count) * y == 256 * t) by (nonlinear_arith)
            requires
                pow256(count) == 256 * p,
                t == p * y,
        ;
        assert((x + 256 * t) % 256 == x % 256);
        assert((x + 256 * t) / 256 == x / 256 + t);
        lemma_le_bytes_low(x / 256, y, (count - 1) as nat);
    }
}

/// The encoding of a wide number is the encoding of its low part followed
/// by the encoding of what remains above it.
pub proof fn lemma_le_bytes_split(v: nat, low: nat, high: nat)
    ensures
        le_bytes(v, low + high) == le_bytes(v, low) + le_bytes(v / pow256(low), high),
    decreases low,
{
    if low == 0 {
        assert(le_bytes(v, low) =~= Seq::<u8>::empty());
        assert(v / pow256(low) == v) by (nonlinear_arith)
            requires
                pow256(low) == 1,
        ;
        assert(le_bytes(v, low) + le_bytes(v, high) =~= le_bytes(v, high));
    } else {
        let p = pow256((low - 1) as nat);
        lemma_pow256_positive((low - 1) as nat);
        lemma_le_bytes_split(v / 256, (low - 1) as nat, high);
        vstd::arithmetic::div_mod::lemma_div_denominator(v as int, 256, p as int);
        assert(pow256(low) == 256 * p);
        assert(v / 256 / p == v / pow256(low));
        let head = seq![(v % 256) as u8];
        let mid = le_bytes(v / 256, (low - 1) as nat);
        let top = le_bytes(v / pow256(low), high);
        assert(le_bytes(v / 256, (low - 1 + high) as nat) == mid + top);
        assert(le_bytes(v, low + high) == head + le_bytes(v / 256, (low + high - 1) as nat));
        assert(le_bytes(v, low) == head + mid);
        assert(head + (mid + top) =~= (head + mid) + top);
    }
}

/// Reads up to eight bytes of `bytes`, from `start` on, as one
/// little-endian word.
pub fn word_from_le(bytes: &[u8], start: usize, count: usize) -> (word: u64)
    requires
        count <= 8,
        start + count <= bytes@.len(),
    ensures
        word == le_value(bytes@.subrange(start as int, start + count)),
{
    let total = bytes.len();
    let mut word: u64 = 0;
    let mut i: usize = count;
    while i > 0
        invariant
            i <= count <= 8,
            start + count <= bytes@.len(),
            bytes@.len() == total,
            word == le_value(bytes@.subrange(start + i, start + count)),
        decreases i,
    {
        proof {
            let tail = bytes@.subrange(start + i, start + count);
            lemma_le_value_bound(tail);
            lemma_pow256_values();
            lemma_pow256_monotone(tail.len(), 7);
            let next = bytes@.subrange(start + i - 1, start + count);
            assert(next.drop_first() =~= tail);
        }
        i = i - 1;
        word = word * 256 + bytes[start + i] as u64;
    }
    word
}

/// `pow256` grows with its exponent.
pub proof fn lemma_pow256_monotone(a: nat, b: nat)
    requires
        a <= b,
    ensures
        pow256(a) <= pow256(b),
    decreases b,
{
    if a < b {
        lemma_pow256_monotone(a, (b - 1) as nat);
        lemma_pow256_positive((b - 1) as nat);
    }
}

/// Appends the eight bytes of `word` to `out`, least significant first.
pub fn push_word_le(out: &mut Vec<u8>, word: u64)
    ensures
        final(out)@ == old(out)@ + le_bytes(word as nat, 8),
{
    let ghost before = out@;
    let mut rest: u64 = word;
    let mut i: usize = 0;
    while i < 8
        invariant
            i <= 8,
            out@ + le_bytes(rest as nat, (8 - i) as nat) == before + le_bytes(word as nat, 8),
        decreases 8 - i,
    {
        proof {
            let tail = le_bytes((rest / 256) as nat, (8 - i - 1) as nat);
            assert(le_bytes(rest as nat, (8 - i) as nat) == seq![(rest % 256) as u8] + tail);
            assert(out@.push((rest % 256) as u8) + tail =~= out@ + (seq![(rest % 256) as u8]
                + tail));
        }
        out.push((rest % 256) as u8);
        rest = rest / 256;
        i = i + 1;
    }
    proof {
        assert(le_bytes(rest as nat, 0) =~= Seq::<u8>::empty());
        assert(out@ + Seq::<u8>::empty() =~= out@);
    }
}

} // verus!
