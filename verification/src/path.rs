//! Words in the surface group: free reduction and fixed-length padding.
//!
//! A path is a sequence of generator indices. For genus `g` the indices
//! `0 .. 2g` name the generators and `2g .. 4g` their inverses, index `k`
//! and index `k + 2g` being inverse to each other. Normalizing a path
//! cancels adjacent inverse pairs until none is left, then pads or cuts the
//! word to the protocol's fixed length.
use vstd::prelude::*;

verus! {

/// The number of indices in every path that leaves the normalizer.
pub const PATH_LENGTH: usize = 20;

/// The largest genus whose indices fit one byte with room to spare.
pub const MAX_GENUS: u8 = 63;

/// The genus is one that paths can be written for.
pub open spec fn genus_ok(genus: int) -> bool {
    2 <= genus <= MAX_GENUS as int
}

/// `x` followed by `y` is a generator next to its own inverse.
pub open spec fn cancels(x: u8, y: u8, genus: int) -> bool {
    x < 4 * genus && y < 4 * genus && (y == x + 2 * genus || x == y + 2 * genus)
}

/// No two neighbours in the word cancel.
pub open spec fn is_reduced(word: Seq<u8>, genus: int) -> bool {
    forall|i: int| 0 <= i < word.len() - 1 ==> !cancels(#[trigger] word[i], word[i + 1], genus)
}

/// Every index of the word names a generator or an inverse.
pub open spec fn indices_valid(word: Seq<u8>, genus: int) -> bool {
    forall|i: int| 0 <= i < word.len() ==> (#[trigger] word[i]) < 4 * genus
}

/// The freely reduced form of a word: read it left to right, and let each
/// index either cancel against the end of what has been kept or be kept.
pub open spec fn free_reduce(word: Seq<u8>, genus: int) -> Seq<u8>
    decreases word.len(),
{
    if word.len() == 0 {
        Seq::empty()
    } else {
        let kept = free_reduce(word.drop_last(), genus);
        if kept.len() > 0 && cancels(kept.last(), word.last(), genus) {
            kept.drop_last()
        } else {
            kept.push(word.last())
        }
    }
}

/// The index that padding appends to a word: one past its last index,
/// wrapping at `4g`; an empty word counts as ending in index 0.
pub open spec fn next_pad(word: Seq<u8>, genus: int) -> u8 {
    let last: int = if word.len() == 0 {
        0
    } else {
        word.last() as int
    };
    ((last + 1) % (4 * genus)) as u8
}

/// The word extended by `next_pad` until it has at least `length` indices.
pub open spec fn pad(word: Seq<u8>, genus: int, length: nat) -> Seq<u8>
    decreases length - word.len(),
{
    if word.len() >= length {
        word
    } else {
        pad(word.push(next_pad(word, genus)), genus, length)
    }
}

/// The normal form of a path: freely reduced, then padded, then cut, to
/// exactly `PATH_LENGTH` indices.
pub open spec fn normalize(word: Seq<u8>, genus: int) -> Seq<u8> {
    pad(free_reduce(word, genus), genus, PATH_LENGTH as nat).take(PATH_LENGTH as int)
}

/// What free reduction leaves has no cancelling neighbours.
pub proof fn lemma_free_reduce_is_reduced(word: Seq<u8>, genus: int)
    ensures
        is_reduced(free_reduce(word, genus), genus),
    decreases word.len(),
{
    if word.len() > 0 {
        lemma_free_reduce_is_reduced(word.drop_last(), genus);
        let kept = free_reduce(word.drop_last(), genus);
        let out = free_reduce(word, genus);
        assert forall|i: int| 0 <= i < out.len() - 1 implies !cancels(
            #[trigger] out[i],
            out[i + 1],
            genus,
        ) by {
            if kept.len() > 0 && cancels(kept.last(), word.last(), genus) {
                assert(out[i] == kept[i] && out[i + 1] == kept[i + 1]);
            } else if i + 1 < kept.len() {
                assert(out[i] == kept[i] && out[i + 1] == kept[i + 1]);
            } else {
                assert(out[i] == kept.last());
            }
        }
    }
}

/// Free reduction keeps only indices of the word it was given.
pub proof fn lemma_free_reduce_valid(word: Seq<u8>, genus: int)
    requires
        indices_valid(word, genus),
    ensures
        indices_valid(free_reduce(word, genus), genus),
    decreases word.len(),
{
    if word.len() > 0 {
        let front = word.drop_last();
        assert forall|i: int| 0 <= i < front.len() implies (#[trigger] front[i]) < 4 * genus by {
            assert(front[i] == word[i]);
        }
        lemma_free_reduce_valid(front, genus);
        let kept = free_reduce(front, genus);
        let out = free_reduce(word, genus);
        assert forall|i: int| 0 <= i < out.len() implies (#[trigger] out[i]) < 4 * genus by {
            if i < kept.len() {
                assert(out[i] == kept[i]);
            } else {
                assert(out[i] == word[word.len() - 1]);
            }
        }
    }
}

/// A word without cancelling neighbours is its own free reduction.
pub proof fn lemma_reduced_is_fixed(word: Seq<u8>, genus: int)
    requires
        is_reduced(word, genus),
    ensures
        free_reduce(word, genus) == word,
    decreases word.len(),
{
    if word.len() > 0 {
        let front = word.drop_last();
        assert forall|i: int| 0 <= i < front.len() - 1 implies !cancels(
            #[trigger] front[i],
            front[i + 1],
            genus,
        ) by {
            assert(front[i] == word[i] && front[i + 1] == word[i + 1]);
        }
        lemma_reduced_is_fixed(front, genus);
        if front.len() > 0 {
            assert(front.last() == word[word.len() - 2]);
            assert(!cancels(word[word.len() - 2], word[word.len() - 2 + 1], genus));
        }
        assert(front.push(word.last()) =~= word);
    } else {
        assert(word =~= Seq::<u8>::empty());
    }
}

/// Free reduction is idempotent.
pub proof fn lemma_free_reduce_idempotent(word: Seq<u8>, genus: int)
    ensures
        free_reduce(free_reduce(word, genus), genus) == free_reduce(word, genus),
{
    lemma_free_reduce_is_reduced(word, genus);
    lemma_reduced_is_fixed(free_reduce(word, genus), genus);
}

/// A generator followed at once by its inverse reduces to the empty word.
pub proof fn lemma_inverse_pair_vanishes(x: u8, y: u8, genus: int)
    requires
        cancels(x, y, genus),
    ensures
        free_reduce(seq![x, y], genus) == Seq::<u8>::empty(),
{
    let word = seq![x, y];
    let front = word.drop_last();
    assert(front =~= seq![x]);
    assert(front.drop_last() =~= Seq::<u8>::empty());
    assert(free_reduce(front.drop_last(), genus) =~= Seq::<u8>::empty());
    assert(free_reduce(front, genus) =~= seq![x]);
    assert(free_reduce(word, genus) =~= Seq::<u8>::empty());
}

/// The index that padding appends never cancels against the one before it.
pub proof fn lemma_next_pad_safe(word: Seq<u8>, genus: int)
    requires
        1 <= genus <= MAX_GENUS as int,
    ensures
        next_pad(word, genus) < 4 * genus,
        word.len() > 0 ==> !cancels(word.last(), next_pad(word, genus), genus),
{
    let n = 4 * genus;
    let last: int = if word.len() == 0 {
        0
    } else {
        word.last() as int
    };
    vstd::arithmetic::div_mod::lemma_mod_pos_bound(last + 1, n);
    if last < n {
        if last + 1 < n {
            vstd::arithmetic::div_mod::lemma_small_mod((last + 1) as nat, n as nat);
        } else {
            vstd::arithmetic::div_mod::lemma_mod_self_0(n);
        }
    }
}

/// Padding has the length asked for, or the word's own if that is longer.
pub proof fn lemma_pad_len(word: Seq<u8>, genus: int, length: nat)
    ensures
        pad(word, genus, length).len() == if word.len() >= length {
            word.len()
        } else {
            length
        },
    decreases length - word.len(),
{
    if word.len() < length {
        lemma_pad_len(word.push(next_pad(word, genus)), genus, length);
    }
}

/// Padding a reduced word leaves it reduced.
pub proof fn lemma_pad_reduced(word: Seq<u8>, genus: int, length: nat)
    requires
        1 <= genus <= MAX_GENUS as int,
        is_reduced(word, genus),
    ensures
        is_reduced(pad(word, genus, length), genus),
    decreases length - word.len(),
{
    if word.len() < length {
        let next = word.push(next_pad(word, genus));
        lemma_next_pad_safe(word, genus);
        assert forall|i: int| 0 <= i < next.len() - 1 implies !cancels(
            #[trigger] next[i],
            next[i + 1],
            genus,
        ) by {
            if i + 1 < word.len() {
                assert(next[i] == word[i] && next[i + 1] == word[i + 1]);
            } else {
                assert(next[i] == word.last());
            }
        }
        lemma_pad_reduced(next, genus, length);
    }
}

/// Padding a word of valid indices appends valid indices only.
pub proof fn lemma_pad_valid(word: Seq<u8>, genus: int, length: nat)
    requires
        1 <= genus <= MAX_GENUS as int,
        indices_valid(word, genus),
    ensures
        indices_valid(pad(word, genus, length), genus),
    decreases length - word.len(),
{
    if word.len() < length {
        let next = word.push(next_pad(word, genus));
        lemma_next_pad_safe(word, genus);
        assert forall|i: int| 0 <= i < next.len() implies (#[trigger] next[i]) < 4 * genus by {
            if i < word.len() {
                assert(next[i] == word[i]);
            }
        }
        lemma_pad_valid(next, genus, length);
    }
}

/// A normal form has exactly `PATH_LENGTH` indices and no cancelling
/// neighbours, and its indices are valid where those of the word were.
pub proof fn lemma_normalize_shape(word: Seq<u8>, genus: int)
    requires
        1 <= genus <= MAX_GENUS as int,
    ensures
        normalize(word, genus).len() == PATH_LENGTH,
        is_reduced(normalize(word, genus), genus),
        indices_valid(word, genus) ==> indices_valid(normalize(word, genus), genus),
{
    let reduced = free_reduce(word, genus);
    let padded = pad(reduced, genus, PATH_LENGTH as nat);
    let out = normalize(word, genus);
    lemma_free_reduce_is_reduced(word, genus);
    lemma_pad_len(reduced, genus, PATH_LENGTH as nat);
    lemma_pad_reduced(reduced, genus, PATH_LENGTH as nat);
    assert forall|i: int| 0 <= i < out.len() - 1 implies !cancels(
        #[trigger] out[i],
        out[i + 1],
        genus,
    ) by {
        assert(out[i] == padded[i] && out[i + 1] == padded[i + 1]);
    }
    if indices_valid(word, genus) {
        lemma_free_reduce_valid(word, genus);
        lemma_pad_valid(reduced, genus, PATH_LENGTH as nat);
        assert forall|i: int| 0 <= i < out.len() implies (#[trigger] out[i]) < 4 * genus by {
            assert(out[i] == padded[i]);
        }
    }
}

/// Normalizing is idempotent: a normal form is its own normal form.
pub proof fn lemma_normalize_idempotent(word: Seq<u8>, genus: int)
    requires
        1 <= genus <= MAX_GENUS as int,
    ensures
        normalize(normalize(word, genus), genus) == normalize(word, genus),
{
    let out = normalize(word, genus);
    lemma_normalize_shape(word, genus);
    lemma_reduced_is_fixed(out, genus);
    assert(pad(out, genus, PATH_LENGTH as nat) == out);
    assert(out.take(PATH_LENGTH as int) =~= out);
}

/// Whether `x` followed by `y` is a generator next to its own inverse.
pub fn is_cancelling_pair(x: u8, y: u8, genus: u8) -> (r: bool)
    requires
        genus <= MAX_GENUS,
    ensures
        r == cancels(x, y, genus as int),
{
    let n: u16 = 4 * (genus as u16);
    let half: u16 = 2 * (genus as u16);
    let x: u16 = x as u16;
    let y: u16 = y as u16;
    x < n && y < n && (y == x + half || x == y + half)
}

/// The freely reduced form of `path`.
pub fn reduce_path(path: &[u8], genus: u8) -> (r: Vec<u8>)
    requires
        genus <= MAX_GENUS,
    ensures
        r@ == free_reduce(path@, genus as int),
{
    let mut kept: Vec<u8> = Vec::new();
    let mut i: usize = 0;
    assert(path@.take(0) =~= Seq::<u8>::empty());
    while i < path.len()
        invariant
            i <= path@.len(),
            genus <= MAX_GENUS,
            kept@ == free_reduce(path@.take(i as int), genus as int),
        decreases path@.len() - i,
    {
        let x = path[i];
        proof {
            let upto = path@.take(i + 1);
            assert(upto.drop_last() =~= path@.take(i as int));
            assert(upto.last() == x);
        }
        let n = kept.len();
        if n > 0 && is_cancelling_pair(kept[n - 1], x, genus) {
            kept.pop();
        } else {
            kept.push(x);
        }
        i = i + 1;
    }
    assert(path@.take(path@.len() as int) =~= path@);
    kept
}

/// Brings `path` to its normal form: cancels adjacent inverse pairs until
/// none is left, appends `next_pad` indices while the word is short of
/// `PATH_LENGTH`, and cuts what exceeds it.
pub fn ensure_reduced_path(path: &mut Vec<u8>, genus: u8)
    requires
        1 <= genus <= MAX_GENUS,
    ensures
        final(path)@ == normalize(old(path)@, genus as int),
        final(path)@.len() == PATH_LENGTH,
        is_reduced(final(path)@, genus as int),
        indices_valid(old(path)@, genus as int) ==> indices_valid(final(path)@, genus as int),
{
    let mut word = reduce_path(path.as_slice(), genus);
    let ghost reduced = word@;
    while word.len() < PATH_LENGTH
        invariant
            1 <= genus <= MAX_GENUS,
            pad(word@, genus as int, PATH_LENGTH as nat) == pad(
                reduced,
                genus as int,
                PATH_LENGTH as nat,
            ),
        decreases PATH_LENGTH - word@.len(),
    {
        let n = word.len();
        let last: u16 = if n == 0 {
            0
        } else {
            word[n - 1] as u16
        };
        let next: u16 = (last + 1) % (4 * (genus as u16));
        word.push(next as u8);
    }
    word.truncate(PATH_LENGTH);
    proof {
        lemma_normalize_shape(old(path)@, genus as int);
    }
    *path = word;
}

} // verus!
