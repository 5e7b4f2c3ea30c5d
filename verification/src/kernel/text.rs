//! Byte-string helpers shared by the parsers and the terminals.
//!
//! The kernel stores names and lines as fixed-size byte arrays with an
//! explicit length, so all text handling works over bytes.

use vstd::prelude::*;
use vstd::string::StringSliceAdditionalSpecFns;

verus! {

/// The ASCII space byte, the word separator of the command line.
pub open spec fn is_space(c: u8) -> bool {
    c == 32
}

/// Compare two byte slices for equality.
pub fn bytes_eq(a: &[u8], b: &[u8]) -> (r: bool)
    ensures
        r == (a@ =~= b@),
{
    if a.len() != b.len() {
        return false;
    }
    let mut i: usize = 0;
    while i < a.len()
        invariant
            a@.len() == b@.len(),
            0 <= i <= a@.len(),
            forall|j: int| 0 <= j < i ==> a@[j] == b@[j],
        decreases a@.len() - i,
    {
        if a[i] != b[i] {
            return false;
        }
        i = i + 1;
    }
    true
}

/// Compare two strings byte for byte.
pub fn str_eq(a: &str, b: &str) -> (r: bool)
    ensures
        r == (a.spec_bytes() =~= b.spec_bytes()),
{
    bytes_eq(a.as_bytes(), b.as_bytes())
}

/// `[start, end)` is the first word of `s`: everything before it is
/// spaces, the word itself has none, and it is maximal.
pub open spec fn first_word_range(s: Seq<u8>, start: int, end: int) -> bool {
    &&& 0 <= start <= end <= s.len()
    &&& (forall|k: int| 0 <= k < start ==> is_space(s[k]))
    &&& (forall|k: int| start <= k < end ==> !is_space(s[k]))
    &&& (end < s.len() ==> is_space(s[end]))
    &&& (start == end ==> start == s.len())
}

/// Find the first word of `s`.  Returns `(start, end)`; the word is empty
/// exactly when `s` is all spaces, and then both sit at the end.
pub fn find_first_word(s: &[u8]) -> (r: (usize, usize))
    ensures
        first_word_range(s@, r.0 as int, r.1 as int),
{
    let mut start: usize = 0;
    while start < s.len() && s[start] == 32
        invariant
            0 <= start <= s@.len(),
            forall|k: int| 0 <= k < start ==> is_space(s@[k]),
        decreases s@.len() - start,
    {
        start = start + 1;
    }
    if start == s.len() {
        return (start, start);
    }
    let mut end: usize = start;
    while end < s.len() && s[end] != 32
        invariant
            0 <= start <= end <= s@.len(),
            forall|k: int| start <= k < end ==> !is_space(s@[k]),
        decreases s@.len() - end,
    {
        end = end + 1;
    }
    (start, end)
}

/// The first word's range is unique.
pub proof fn lemma_first_word_unique(s: Seq<u8>, a: int, b: int, c: int, d: int)
    requires
        first_word_range(s, a, b),
        first_word_range(s, c, d),
    ensures
        a == c,
        b == d,
{
    if a < c {
        assert(is_space(s[a]));
        if a < b {
            assert(!is_space(s[a]));
        }
    }
    if c < a {
        assert(is_space(s[c]));
        if c < d {
            assert(!is_space(s[c]));
        }
    }
    if b < d {
        assert(!is_space(s[b]));
        assert(is_space(s[b]));
    }
    if d < b {
        assert(!is_space(s[d]));
        assert(is_space(s[d]));
    }
}

/// Whether any non-space byte stands at or after `from`.
pub open spec fn has_word_after(s: Seq<u8>, from: int) -> bool {
    exists|k: int| from <= k < s.len() && !is_space(s[k])
}

/// Report whether a further word follows position `from`.
pub fn word_follows(s: &[u8], from: usize) -> (r: bool)
    requires
        from <= s@.len(),
    ensures
        r == has_word_after(s@, from as int),
{
    let mut i: usize = from;
    while i < s.len()
        invariant
            from <= i <= s@.len(),
            forall|k: int| from <= k < i ==> is_space(s@[k]),
        decreases s@.len() - i,
    {
        if s[i] != 32 {
            return true;
        }
        i = i + 1;
    }
    false
}

/// `needle` stands at position `i` of `hay`.
pub open spec fn match_at(hay: Seq<u8>, needle: Seq<u8>, i: int) -> bool {
    0 <= i && i + needle.len() <= hay.len() && hay.subrange(i, i + needle.len()) == needle
}

/// `needle` occurs as a contiguous run inside `hay`.
pub open spec fn contains_seq(hay: Seq<u8>, needle: Seq<u8>) -> bool {
    exists|i: int| match_at(hay, needle, i)
}

/// Report whether `needle` occurs inside `hay`.
pub fn contains(hay: &[u8], needle: &[u8]) -> (r: bool)
    ensures
        r == contains_seq(hay@, needle@),
{
    if needle.len() > hay.len() {
        proof {
            assert forall|j: int| !match_at(hay@, needle@, j) by {}
        }
        return false;
    }
    let mut i: usize = 0;
    while i <= hay.len() - needle.len()
        invariant
            needle@.len() <= hay@.len(),
            0 <= i <= hay@.len(),
            forall|j: int| 0 <= j < i ==> !match_at(hay@, needle@, j),
        decreases hay@.len() - i,
    {
        let piece = &hay[i..i + needle.len()];
        if bytes_eq(piece, needle) {
            proof {
                assert(hay@.subrange(i as int, i as int + needle@.len()) == piece@);
                assert(match_at(hay@, needle@, i as int));
            }
            return true;
        }
        proof {
            assert(hay@.subrange(i as int, i as int + needle@.len()) == piece@);
            assert(!match_at(hay@, needle@, i as int));
        }
        i = i + 1;
    }
    proof {
        assert forall|j: int| !match_at(hay@, needle@, j) by {
            if 0 <= j < i {
            } else if j + needle@.len() > hay@.len() {
            }
        }
    }
    false
}

/// `dst` holds the bytes of `src` padded with zeros to the array's length.
pub open spec fn padded(src: Seq<u8>, dst: Seq<u8>) -> bool {
    &&& dst.len() >= src.len()
    &&& (forall|k: int| 0 <= k < src.len() ==> dst[k] == src[k])
    &&& (forall|k: int| src.len() <= k < dst.len() ==> dst[k] == 0)
}

/// Copy `src` into a fresh zero-padded array of `N` bytes.
pub fn copy_to_array<const N: usize>(src: &[u8]) -> (r: [u8; N])
    requires
        src@.len() <= N,
    ensures
        padded(src@, r@),
{
    let mut dst: [u8; N] = [0; N];
    let mut i: usize = 0;
    while i < src.len()
        invariant
            src@.len() <= N,
            0 <= i <= src@.len(),
            dst@.len() == N,
            forall|k: int| 0 <= k < i ==> dst@[k] == src@[k],
            forall|k: int| i <= k < N ==> dst@[k] == 0,
        decreases src@.len() - i,
    {
        dst[i] = src[i];
        i = i + 1;
    }
    dst
}

/// Join a prefix and a body, truncated to at most `cap` bytes.
pub fn compose(prefix: &[u8], body: &[u8], cap: usize) -> (r: Vec<u8>)
    ensures
        r@ =~= (prefix@ + body@).take(
            if prefix@.len() + body@.len() <= cap {
                (prefix@.len() + body@.len()) as int
            } else {
                cap as int
            },
        ),
{
    let mut out: Vec<u8> = Vec::new();
    let mut i: usize = 0;
    while i < prefix.len() && out.len() < cap
        invariant
            0 <= i <= prefix@.len(),
            out@.len() == i,
            out@ =~= prefix@.take(i as int),
            i <= cap,
        decreases prefix@.len() - i,
    {
        out.push(prefix[i]);
        i = i + 1;
    }
    let ghost l1 = out@.len() as int;
    let mut j: usize = 0;
    while j < body.len() && out.len() < cap
        invariant
            0 <= j <= body@.len(),
            out@.len() == l1 + j,
            out@.len() <= cap,
            out@ =~= (prefix@ + body@).take(out@.len() as int),
            l1 == prefix@.len() || (l1 == cap && j == 0),
        decreases body@.len() - j,
    {
        out.push(body[j]);
        j = j + 1;
    }
    out
}

/// The first `len` bytes of the stored array, the part that carries a name.
pub open spec fn stored(dst: Seq<u8>, len: int) -> Seq<u8> {
    dst.subrange(0, len)
}

/// Whether the first `len` bytes of `stored` equal `other`.
pub fn prefix_eq(stored_bytes: &[u8], len: usize, other: &[u8]) -> (r: bool)
    requires
        len <= stored_bytes@.len(),
    ensures
        r == (stored(stored_bytes@, len as int) =~= other@),
{
    if len != other.len() {
        return false;
    }
    let mut i: usize = 0;
    while i < len
        invariant
            len <= stored_bytes@.len(),
            len == other@.len(),
            0 <= i <= len,
            forall|j: int| 0 <= j < i ==> stored_bytes@[j] == other@[j],
        decreases len - i,
    {
        if stored_bytes[i] != other[i] {
            return false;
        }
        i = i + 1;
    }
    true
}

} // verus!
