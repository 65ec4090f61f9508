//! Substring occurrence over character sequences, and the lemmas that
//! let absence of a word be carried through concatenation.

use vstd::prelude::*;

verus! {

/// `n` occurs in `h` starting at position `i`.
pub open spec fn occurs_at(h: Seq<char>, n: Seq<char>, i: int) -> bool {
    0 <= i && i + n.len() <= h.len() && h.subrange(i, i + n.len() as int) == n
}

/// `n` occurs somewhere in `h`.
pub open spec fn has_substring(h: Seq<char>, n: Seq<char>) -> bool {
    exists|i: int| occurs_at(h, n, i)
}

/// Inside an occurrence, every position of the haystack carries the
/// matching character of the needle.
pub proof fn lemma_occurs_index(h: Seq<char>, n: Seq<char>, i: int, j: int)
    requires
        occurs_at(h, n, i),
        0 <= j < n.len(),
    ensures
        h[i + j] == n[j],
{
    assert(h.subrange(i, i + n.len() as int)[j] == n[j]);
}

/// If a word occurs in neither half, and at least one boundary
/// character (the last of the left half or the first of the right
/// half) appears nowhere in the word, then the word does not occur in
/// the concatenation either.
pub proof fn lemma_no_substring_concat(a: Seq<char>, b: Seq<char>, n: Seq<char>)
    requires
        n.len() > 0,
        !has_substring(a, n),
        !has_substring(b, n),
        (a.len() == 0 || !n.contains(a.last())) || (b.len() == 0 || !n.contains(b.first())),
    ensures
        !has_substring(a + b, n),
{
    let h = a + b;
    assert forall|i: int| !occurs_at(h, n, i) by {
        if occurs_at(h, n, i) {
            if i + n.len() <= a.len() {
                assert(a.subrange(i, i + n.len() as int) =~= h.subrange(i, i + n.len() as int));
                assert(occurs_at(a, n, i));
            } else if i >= a.len() {
                assert(b.subrange(i - a.len(), i - a.len() + n.len() as int) =~= h.subrange(
                    i,
                    i + n.len() as int,
                ));
                assert(occurs_at(b, n, i - a.len()));
            } else {
                // The occurrence straddles the boundary, so it covers
                // both the last character of `a` and the first of `b`.
                assert(0 < a.len());
                assert(a.len() < i + n.len());
                let ja = a.len() - 1 - i;
                lemma_occurs_index(h, n, i, ja);
                assert(h[a.len() - 1] == a.last());
                assert(n[ja] == a.last());
                assert(n.contains(a.last()));
                assert(0 < b.len()) by {
                    assert(i + n.len() <= h.len());
                }
                let jb = a.len() - i;
                lemma_occurs_index(h, n, i, jb);
                assert(h[a.len() as int] == b.first());
                assert(n[jb] == b.first());
                assert(n.contains(b.first()));
            }
        }
    }
}

/// No 't' is immediately followed by a 'u' anywhere in `h`. The word
/// "status" carries such a pair, so a sequence with this shape cannot
/// contain it.
pub open spec fn tu_free(h: Seq<char>) -> bool {
    forall|i: int| 0 <= i && i + 1 < h.len() ==> !(#[trigger] h[i] == 't' && h[i + 1] == 'u')
}

/// A sequence without an adjacent "tu" pair never contains "status".
pub proof fn lemma_tu_free_no_status(h: Seq<char>)
    requires
        tu_free(h),
    ensures
        !has_substring(h, "status"@),
{
    reveal_strlit("status");
    let n = "status"@;
    assert forall|i: int| !occurs_at(h, n, i) by {
        if occurs_at(h, n, i) {
            lemma_occurs_index(h, n, i, 3);
            lemma_occurs_index(h, n, i, 4);
            assert(h[i + 3] == 't');
            assert(h[i + 4] == 'u');
            assert(!(h[i + 3] == 't' && h[i + 3 + 1] == 'u'));
        }
    }
}

/// "tu"-freedom carries through concatenation when the boundary does
/// not itself form the pair.
pub proof fn lemma_tu_free_concat(a: Seq<char>, b: Seq<char>)
    requires
        tu_free(a),
        tu_free(b),
        !(a.len() > 0 && b.len() > 0 && a.last() == 't' && b.first() == 'u'),
    ensures
        tu_free(a + b),
{
    let h = a + b;
    assert forall|i: int| 0 <= i && i + 1 < h.len() implies !(#[trigger] h[i] == 't' && h[i + 1]
        == 'u') by {
        if i + 1 < a.len() {
            assert(h[i] == a[i]);
            assert(h[i + 1] == a[i + 1]);
        } else if i + 1 == a.len() {
            assert(h[i] == a.last());
            assert(h[i + 1] == b.first());
        } else {
            assert(h[i] == b[i - a.len()]);
            assert(h[i + 1] == b[i + 1 - a.len()]);
            assert(!(b[i - a.len()] == 't' && b[i - a.len() + 1] == 'u'));
        }
    }
}

/// Every character of `h` has a code point below 58 (digits and the
/// punctuation '-', '.'): such text holds no letter at all.
pub open spec fn small_chars(h: Seq<char>) -> bool {
    forall|i: int| 0 <= i < h.len() ==> #[trigger] (h[i] as u32) < 58
}

/// Text of digits and punctuation is trivially "tu"-free.
pub proof fn lemma_small_chars_tu_free(h: Seq<char>)
    requires
        small_chars(h),
    ensures
        tu_free(h),
{
    assert forall|i: int| 0 <= i && i + 1 < h.len() implies !(#[trigger] h[i] == 't' && h[i + 1]
        == 'u') by {
        assert((h[i] as u32) < 58);
        assert('t' as u32 == 116);
    }
}

} // verus!
