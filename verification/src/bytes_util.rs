//! Byte-sequence helpers used throughout the request pipeline: equality,
//! ASCII case folding, appending, and first occurrence of one byte
//! sequence inside another.

use vstd::prelude::*;

verus! {

/// True when `n` occurs in `h` starting exactly at index `i`.
pub open spec fn is_match_at(h: Seq<u8>, n: Seq<u8>, i: int) -> bool {
    &&& 0 <= i
    &&& i + n.len() <= h.len()
    &&& h.subrange(i, i + n.len() as int) == n
}

/// Index of the first occurrence of `n` inside `h`, if any.
pub open spec fn spec_find(h: Seq<u8>, n: Seq<u8>) -> Option<int>
    decreases h.len(),
{
    if n.len() == 0 {
        Some(0int)
    } else if h.len() < n.len() {
        None
    } else if h.subrange(0, n.len() as int) == n {
        Some(0int)
    } else {
        match spec_find(h.subrange(1, h.len() as int), n) {
            None => None,
            Some(i) => Some(i + 1),
        }
    }
}

/// `spec_find` returns the least index at which `n` occurs in `h`,
/// and `None` exactly when it occurs nowhere.
pub proof fn lemma_spec_find(h: Seq<u8>, n: Seq<u8>)
    ensures
        match spec_find(h, n) {
            Some(i) => is_match_at(h, n, i) && (forall|j: int| 0 <= j < i ==> !is_match_at(h, n, j)),
            None => forall|j: int| !is_match_at(h, n, j),
        },
    decreases h.len(),
{
    if n.len() == 0 {
        assert(h.subrange(0, 0) =~= n);
    } else if h.len() < n.len() {
    } else if h.subrange(0, n.len() as int) == n {
    } else {
        let t = h.subrange(1, h.len() as int);
        lemma_spec_find(t, n);
        assert forall|j: int| 0 <= j && j + n.len() <= t.len() implies (is_match_at(t, n, j)
            == is_match_at(h, n, j + 1)) by {
            assert(t.subrange(j, j + n.len() as int) =~= h.subrange(j + 1, j + 1 + n.len() as int));
        }
        match spec_find(t, n) {
            None => {
                assert forall|j: int| !is_match_at(h, n, j) by {
                    if 1 <= j && j + n.len() <= h.len() {
                        assert(!is_match_at(t, n, j - 1));
                    }
                }
            },
            Some(i) => {
                assert(is_match_at(t, n, i));
                assert(is_match_at(h, n, i + 1));
                assert forall|j: int| 0 <= j < i + 1 implies !is_match_at(h, n, j) by {
                    if j == 0 {
                    } else {
                        assert(!is_match_at(t, n, j - 1));
                    }
                }
            },
        }
    }
}

/// Byte-for-byte equality of two slices.
pub fn bytes_eq(a: &[u8], b: &[u8]) -> (r: bool)
    ensures
        r == (a@ == b@),
{
    if a.len() != b.len() {
        return false;
    }
    let mut i: usize = 0;
    while i < a.len()
        invariant
            i <= a@.len(),
            a@.len() == b@.len(),
            forall|k: int| 0 <= k < i ==> a@[k] == b@[k],
        decreases a@.len() - i,
    {
        if a[i] != b[i] {
            return false;
        }
        i += 1;
    }
    proof {
        assert(a@ =~= b@);
    }
    true
}

/// ASCII lower-casing of one byte.
pub open spec fn spec_lower_byte(b: u8) -> u8 {
    if 65 <= b && b <= 90 {
        (b + 32) as u8
    } else {
        b
    }
}

/// ASCII lower-casing of a byte sequence.
pub open spec fn spec_lower(s: Seq<u8>) -> Seq<u8> {
    s.map_values(|b: u8| spec_lower_byte(b))
}

/// True exactly when `a` lower-cased equals `b` (callers pass `b`
/// already in lower case).
pub fn eq_ignore_ascii_case(a: &[u8], b: &[u8]) -> (r: bool)
    ensures
        r == (spec_lower(a@) == b@),
{
    if a.len() != b.len() {
        return false;
    }
    let mut i: usize = 0;
    while i < a.len()
        invariant
            i <= a@.len(),
            a@.len() == b@.len(),
            forall|k: int| 0 <= k < i ==> spec_lower_byte(a@[k]) == b@[k],
        decreases a@.len() - i,
    {
        let c = a[i];
        let lc = if 65 <= c && c <= 90 {
            c + 32
        } else {
            c
        };
        if lc != b[i] {
            proof {
                assert(spec_lower(a@)[i as int] != b@[i as int]);
            }
            return false;
        }
        i += 1;
    }
    proof {
        assert(spec_lower(a@) =~= b@);
    }
    true
}

/// Appends every byte of `src` to `dst`.
pub fn push_all(dst: &mut Vec<u8>, src: &[u8])
    ensures
        final(dst)@ == old(dst)@ + src@,
{
    let mut i: usize = 0;
    while i < src.len()
        invariant
            i <= src@.len(),
            dst@ == old(dst)@ + src@.subrange(0, i as int),
        decreases src@.len() - i,
    {
        dst.push(src[i]);
        proof {
            assert(old(dst)@ + src@.subrange(0, i as int) + seq![src@[i as int]] =~= old(dst)@
                + src@.subrange(0, i + 1));
        }
        i += 1;
    }
    proof {
        assert(src@.subrange(0, src@.len() as int) =~= src@);
    }
}

/// First occurrence of the non-empty byte sequence `n` inside `h`.
pub fn find_sub(h: &[u8], n: &[u8]) -> (r: Option<usize>)
    requires
        n@.len() >= 1,
    ensures
        match r {
            Some(i) => spec_find(h@, n@) == Some(i as int),
            None => spec_find(h@, n@) == None::<int>,
        },
{
    if h.len() < n.len() {
        proof {
            lemma_spec_find(h@, n@);
        }
        return None;
    }
    let last = h.len() - n.len();
    let mut i: usize = 0;
    loop
        invariant
            n@.len() >= 1,
            n@.len() <= h@.len(),
            h@.len() <= usize::MAX,
            last == h@.len() - n@.len(),
            i <= last + 1,
            forall|j: int| 0 <= j < i ==> !is_match_at(h@, n@, j),
        decreases last + 1 - i,
    {
        if i > last {
            proof {
                lemma_spec_find(h@, n@);
                assert forall|j: int| !is_match_at(h@, n@, j) by {
                    if 0 <= j && j + n@.len() <= h@.len() {
                        assert(j <= last);
                    }
                }
                if let Some(k) = spec_find(h@, n@) {
                    assert(is_match_at(h@, n@, k));
                }
            }
            return None;
        }
        let sub = vstd::slice::slice_subrange(h, i, i + n.len());
        if bytes_eq(sub, n) {
            proof {
                lemma_spec_find(h@, n@);
                assert(is_match_at(h@, n@, i as int));
                match spec_find(h@, n@) {
                    None => {
                        assert(false);
                    },
                    Some(k) => {
                        if k < i {
                            assert(!is_match_at(h@, n@, k));
                        }
                        if i < k {
                            assert(!is_match_at(h@, n@, i as int));
                        }
                    },
                }
            }
            return Some(i);
        }
        i += 1;
    }
}

} // verus!
