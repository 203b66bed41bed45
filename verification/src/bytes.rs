//! Byte-level utilities shared by the frame codec and the credential
//! parser: whitespace trimming and scanning for a separator byte.
//!
//! Trimming here covers ASCII whitespace only.  Frames and cookie pairs
//! are byte strings whose surrounding padding, where any appears, is
//! ASCII; a piece wrapped in an exotic Unicode space is not stripped.
//! The update-text trim in the event demultiplexer is separate and
//! covers the full Unicode White_Space set.

use vstd::prelude::*;

verus! {

/// ASCII whitespace, the characters stripped from around a piece of text.
pub open spec fn is_ws_byte(b: u8) -> bool {
    b == 0x09 || b == 0x0a || b == 0x0b || b == 0x0c || b == 0x0d || b == 0x20
}

/// Length of the whitespace run at the front of `s`.
pub open spec fn ws_prefix_len(s: Seq<u8>) -> int
    decreases s.len(),
{
    if s.len() > 0 && is_ws_byte(s[0]) {
        1 + ws_prefix_len(s.drop_first())
    } else {
        0
    }
}

/// Length of the whitespace run at the back of `s`.
pub open spec fn ws_suffix_len(s: Seq<u8>) -> int
    decreases s.len(),
{
    if s.len() > 0 && is_ws_byte(s.last()) {
        1 + ws_suffix_len(s.drop_last())
    } else {
        0
    }
}

/// `s` with leading and trailing whitespace removed.
pub open spec fn trim(s: Seq<u8>) -> Seq<u8> {
    if ws_prefix_len(s) == s.len() {
        Seq::empty()
    } else {
        s.subrange(ws_prefix_len(s), s.len() - ws_suffix_len(s))
    }
}

/// Position of the first occurrence of `b` in `s`, or `s.len()` if there
/// is none.
pub open spec fn find_byte(s: Seq<u8>, b: u8) -> int
    decreases s.len(),
{
    if s.len() == 0 {
        0
    } else if s[0] == b {
        0
    } else {
        1 + find_byte(s.drop_first(), b)
    }
}

/// The whitespace prefix length is pinned by its characterization: `p`
/// whitespace bytes followed by the end or a non-whitespace byte.
pub proof fn lemma_ws_prefix_len_unique(s: Seq<u8>, p: int)
    requires
        0 <= p <= s.len(),
        forall|i: int| 0 <= i < p ==> is_ws_byte(s[i]),
        p < s.len() ==> !is_ws_byte(s[p]),
    ensures
        ws_prefix_len(s) == p,
    decreases s.len(),
{
    if s.len() > 0 && is_ws_byte(s[0]) {
        assert(p > 0);
        lemma_ws_prefix_len_unique(s.drop_first(), p - 1);
    }
}

pub proof fn lemma_ws_suffix_len_unique(s: Seq<u8>, q: int)
    requires
        0 <= q <= s.len(),
        forall|i: int| s.len() - q <= i < s.len() ==> is_ws_byte(s[i]),
        q < s.len() ==> !is_ws_byte(s[s.len() - q - 1]),
    ensures
        ws_suffix_len(s) == q,
    decreases s.len(),
{
    if s.len() > 0 && is_ws_byte(s.last()) {
        assert(q > 0);
        assert forall|i: int| s.drop_last().len() - (q - 1) <= i < s.drop_last().len()
            implies is_ws_byte(s.drop_last()[i]) by {
            assert(s.drop_last()[i] == s[i]);
        }
        lemma_ws_suffix_len_unique(s.drop_last(), q - 1);
    }
}

/// The first occurrence of `b` lies within the sequence, everything
/// before it is another byte, and it carries `b` itself unless the
/// sequence holds none.
pub proof fn lemma_find_byte_bounds(s: Seq<u8>, b: u8)
    ensures
        0 <= find_byte(s, b) <= s.len(),
        find_byte(s, b) < s.len() ==> s[find_byte(s, b)] == b,
        forall|i: int| 0 <= i < find_byte(s, b) ==> s[i] != b,
    decreases s.len(),
{
    if s.len() > 0 && s[0] != b {
        lemma_find_byte_bounds(s.drop_first(), b);
        assert forall|i: int| 0 <= i < find_byte(s, b) implies s[i] != b by {
            if i > 0 {
                assert(s.drop_first()[i - 1] == s[i]);
            }
        }
    }
}

/// The first-occurrence position is pinned by its characterization.
pub proof fn lemma_find_byte_unique(s: Seq<u8>, b: u8, p: int)
    requires
        0 <= p <= s.len(),
        forall|i: int| 0 <= i < p ==> s[i] != b,
        p < s.len() ==> s[p] == b,
    ensures
        find_byte(s, b) == p,
    decreases s.len(),
{
    if s.len() > 0 && s[0] != b {
        assert(p > 0);
        lemma_find_byte_unique(s.drop_first(), b, p - 1);
    }
}

/// Scan `s` from `from` for the byte `b`; the result is the position of
/// the first occurrence at or after `from`, or the length of `s`.
pub(crate) fn scan_for_byte(s: &[u8], b: u8, from: usize) -> (j: usize)
    requires
        from <= s@.len(),
    ensures
        from <= j <= s@.len(),
        find_byte(s@.skip(from as int), b) == j - from,
        forall|k: int| from <= k < j ==> s@[k] != b,
        j < s@.len() ==> s@[j as int] == b,
{
    let len = s.len();
    let mut j = from;
    while j < len && *vstd::slice::slice_index_get(s, j) != b
        invariant
            from <= j <= len,
            len == s@.len(),
            forall|k: int| from <= k < j ==> s@[k] != b,
        decreases len - j,
    {
        j += 1;
    }
    proof {
        let rest = s@.skip(from as int);
        assert forall|i: int| 0 <= i < j - from implies rest[i] != b by {
            assert(rest[i] == s@[from + i]);
        }
        if j < len {
            assert(rest[j - from] == s@[j as int]);
        }
        lemma_find_byte_unique(rest, b, j - from);
    }
    j
}

/// Whether the byte of `s` at `i` is ASCII whitespace.
fn ws_at(s: &[u8], i: usize) -> (r: bool)
    requires
        i < s@.len(),
    ensures
        r == is_ws_byte(s@[i as int]),
{
    let c = *vstd::slice::slice_index_get(s, i);
    c == 0x09 || c == 0x0a || c == 0x0b || c == 0x0c || c == 0x0d || c == 0x20
}

/// Narrow the range `from..to` of `s` by the whitespace at either end;
/// the narrowed range carries exactly the trimmed piece, and is empty
/// exactly when the piece is all whitespace.
pub(crate) fn trim_range(s: &[u8], from: usize, to: usize) -> (r: (usize, usize))
    requires
        from <= to && to <= s@.len(),
    ensures
        from <= r.0 && r.0 <= r.1 && r.1 <= to,
        r.0 == r.1 ==> trim(s@.subrange(from as int, to as int)) == Seq::<u8>::empty(),
        r.0 < r.1 ==> trim(s@.subrange(from as int, to as int)) == s@.subrange(
            r.0 as int,
            r.1 as int,
        ),
{
    let ghost piece = s@.subrange(from as int, to as int);
    let mut lo = from;
    while lo < to && ws_at(s, lo)
        invariant
            from <= lo <= to,
            to <= s@.len(),
            forall|k: int| from <= k < lo ==> is_ws_byte(s@[k]),
        decreases to - lo,
    {
        lo += 1;
    }
    let mut hi = to;
    while hi > lo && ws_at(s, hi - 1)
        invariant
            lo <= hi <= to,
            to <= s@.len(),
            forall|k: int| hi <= k < to ==> is_ws_byte(s@[k]),
        decreases hi - lo,
    {
        hi -= 1;
    }
    proof {
        assert forall|i: int| 0 <= i < lo - from implies is_ws_byte(piece[i]) by {
            assert(piece[i] == s@[from + i]);
        }
        if lo == to {
            lemma_ws_prefix_len_unique(piece, piece.len() as int);
        } else {
            assert(piece[lo - from] == s@[lo as int]);
            assert(!is_ws_byte(piece[lo - from]));
            lemma_ws_prefix_len_unique(piece, lo - from);
            assert forall|i: int| piece.len() - (to - hi) <= i < piece.len() implies is_ws_byte(
                piece[i],
            ) by {
                assert(piece[i] == s@[from + i]);
            }
            assert(piece[piece.len() - (to - hi) - 1] == s@[hi - 1]);
            assert(!is_ws_byte(piece[piece.len() - (to - hi) - 1]));
            lemma_ws_suffix_len_unique(piece, to - hi);
            assert(trim(piece) =~= s@.subrange(lo as int, hi as int));
        }
    }
    (lo, hi)
}

} // verus!
