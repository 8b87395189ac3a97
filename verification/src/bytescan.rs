//! Substring, prefix and suffix predicates over byte sequences, with
//! executable scanners proved against them. The manifest validator and the
//! content-type check are stated in terms of these predicates.

use vstd::prelude::*;

verus! {

/// `n` occurs in `h` as a contiguous run starting at index `i`.
pub open spec fn matches_at(h: Seq<u8>, n: Seq<u8>, i: int) -> bool {
    0 <= i && i + n.len() <= h.len() && h.subrange(i, i + n.len() as int) == n
}

/// `n` occurs somewhere in `h`.
pub open spec fn contains_seq(h: Seq<u8>, n: Seq<u8>) -> bool {
    exists|i: int| matches_at(h, n, i)
}

/// `h` begins with `n`.
pub open spec fn starts_with(h: Seq<u8>, n: Seq<u8>) -> bool {
    matches_at(h, n, 0)
}

/// `h` ends with `n`.
pub open spec fn ends_with(h: Seq<u8>, n: Seq<u8>) -> bool {
    n.len() <= h.len() && matches_at(h, n, h.len() - n.len())
}

/// A match at `i` is exactly element-wise agreement from `i` on.
proof fn lemma_matches_at_pointwise(h: Seq<u8>, n: Seq<u8>, i: int)
    requires
        0 <= i,
        i + n.len() <= h.len(),
    ensures
        matches_at(h, n, i) <==> (forall|t: int| 0 <= t < n.len() ==> h[i + t] == n[t]),
{
    if matches_at(h, n, i) {
        assert forall|t: int| 0 <= t < n.len() implies h[i + t] == n[t] by {
            assert(h.subrange(i, i + n.len() as int)[t] == h[i + t]);
        }
    }
    if forall|t: int| 0 <= t < n.len() ==> h[i + t] == n[t] {
        assert(h.subrange(i, i + n.len() as int) =~= n);
    }
}

/// Brute-force scan for `needle` inside `hay`.
pub fn contains_bytes(hay: &Vec<u8>, needle: &Vec<u8>) -> (b: bool)
    ensures
        b == contains_seq(hay@, needle@),
{
    if needle.len() > hay.len() {
        assert forall|i: int| !matches_at(hay@, needle@, i) by {}
        return false;
    }
    let mut i: usize = 0;
    loop
        invariant
            needle.len() <= hay.len(),
            i <= hay.len() - needle.len(),
            forall|j: int| 0 <= j < i ==> !matches_at(hay@, needle@, j),
        decreases hay.len() - needle.len() - i,
    {
        let mut k: usize = 0;
        let mut hit = true;
        while k < needle.len()
            invariant
                needle.len() <= hay.len(),
                i <= hay.len() - needle.len(),
                k <= needle.len(),
                hit ==> forall|t: int| 0 <= t < k ==> hay@[i + t] == needle@[t],
                !hit ==> !matches_at(hay@, needle@, i as int),
            decreases needle.len() - k,
        {
            if hay[i + k] != needle[k] {
                proof {
                    lemma_matches_at_pointwise(hay@, needle@, i as int);
                }
                hit = false;
                k = needle.len();
            } else {
                k = k + 1;
            }
        }
        if hit {
            proof {
                lemma_matches_at_pointwise(hay@, needle@, i as int);
            }
            return true;
        }
        if i == hay.len() - needle.len() {
            assert forall|j: int| !matches_at(hay@, needle@, j) by {
                if i < j {
                    assert(j + needle@.len() > hay@.len());
                }
            }
            return false;
        }
        i = i + 1;
    }
}

/// Element-wise check that `hay` begins with `needle`.
pub fn has_prefix(hay: &Vec<u8>, needle: &Vec<u8>) -> (b: bool)
    ensures
        b == starts_with(hay@, needle@),
{
    if needle.len() > hay.len() {
        return false;
    }
    let mut k: usize = 0;
    while k < needle.len()
        invariant
            needle.len() <= hay.len(),
            k <= needle.len(),
            forall|t: int| 0 <= t < k ==> hay@[t] == needle@[t],
        decreases needle.len() - k,
    {
        if hay[k] != needle[k] {
            proof {
                lemma_matches_at_pointwise(hay@, needle@, 0);
            }
            return false;
        }
        k = k + 1;
    }
    proof {
        lemma_matches_at_pointwise(hay@, needle@, 0);
    }
    true
}

/// Element-wise check that `hay` ends with `needle`.
pub fn has_suffix(hay: &Vec<u8>, needle: &Vec<u8>) -> (b: bool)
    ensures
        b == ends_with(hay@, needle@),
{
    if needle.len() > hay.len() {
        return false;
    }
    let base: usize = hay.len() - needle.len();
    let mut k: usize = 0;
    while k < needle.len()
        invariant
            needle.len() <= hay.len(),
            base == hay.len() - needle.len(),
            k <= needle.len(),
            forall|t: int| 0 <= t < k ==> hay@[base + t] == needle@[t],
        decreases needle.len() - k,
    {
        if hay[base + k] != needle[k] {
            proof {
                lemma_matches_at_pointwise(hay@, needle@, base as int);
            }
            return false;
        }
        k = k + 1;
    }
    proof {
        lemma_matches_at_pointwise(hay@, needle@, base as int);
    }
    true
}

} // verus!
