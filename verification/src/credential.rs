//! Credential handling for the session bootstrap.  The caller supplies an
//! opaque session cookie; when it holds several `key=value` pairs joined
//! by `;`, only the pair whose key is `_U` (in either case) matters, and
//! a credential with several pairs and no such key is rejected before any
//! network activity.  Each pair is trimmed of surrounding ASCII
//! whitespace before its key is read.

use crate::bytes::{find_byte, lemma_find_byte_bounds, lemma_find_byte_unique, scan_for_byte, trim,
    trim_range};
use crate::errors::Error;
use vstd::prelude::*;

verus! {

/// The byte that joins cookie pairs.
pub const PAIR_SEPARATOR: u8 = 0x3b;

/// The byte that separates a pair's key from its value.
pub const KEY_VALUE_SEPARATOR: u8 = 0x3d;

/// The pieces of a credential, split on the pair separator.
pub open spec fn cookie_pairs(s: Seq<u8>) -> Seq<Seq<u8>>
    decreases s.len(),
    via cookie_pairs_decreases
{
    let fd = find_byte(s, PAIR_SEPARATOR);
    if fd == s.len() {
        seq![s]
    } else {
        seq![s.take(fd)] + cookie_pairs(s.skip(fd + 1))
    }
}

#[via_fn]
proof fn cookie_pairs_decreases(s: Seq<u8>) {
    lemma_find_byte_bounds(s, PAIR_SEPARATOR);
}

/// The key and value of one pair: the piece is trimmed and split at the
/// first `=`; a piece without `=` carries no pair.
pub open spec fn pair_fields(p: Seq<u8>) -> Option<(Seq<u8>, Seq<u8>)> {
    let t = trim(p);
    let eq = find_byte(t, KEY_VALUE_SEPARATOR);
    if eq == t.len() {
        None
    } else {
        Some((t.take(eq), t.skip(eq + 1)))
    }
}

/// Whether a pair key selects the meaningful cookie: `_u` compared
/// case-insensitively.
pub open spec fn is_u_key(k: Seq<u8>) -> bool {
    k.len() == 2 && k[0] == 0x5f && (k[1] == 0x75 || k[1] == 0x55)
}

/// The value of the first `_U`-keyed pair in the list, if any.
pub open spec fn u_value_of_pairs(ps: Seq<Seq<u8>>) -> Option<Seq<u8>>
    decreases ps.len(),
{
    if ps.len() == 0 {
        None
    } else {
        match pair_fields(ps[0]) {
            Some((k, v)) => if is_u_key(k) {
                Some(v)
            } else {
                u_value_of_pairs(ps.drop_first())
            },
            None => u_value_of_pairs(ps.drop_first()),
        }
    }
}

/// What credential normalization yields: a credential without a pair
/// separator passes through unchanged; one with separators yields the
/// value of its first `_U`-keyed pair, or nothing when no pair matches.
pub open spec fn normalized_credential(s: Seq<u8>) -> Option<Seq<u8>> {
    if s.contains(PAIR_SEPARATOR) {
        u_value_of_pairs(cookie_pairs(s))
    } else {
        Some(s)
    }
}

/// Whether the bytes of `k` form a `_U` key, compared case-insensitively.
fn key_is_u(s: &[u8], from: usize, to: usize) -> (r: bool)
    requires
        from <= to && to <= s@.len(),
    ensures
        r == is_u_key(s@.subrange(from as int, to as int)),
{
    if to - from != 2 {
        return false;
    }
    let c0 = *vstd::slice::slice_index_get(s, from);
    let c1 = *vstd::slice::slice_index_get(s, from + 1);
    c0 == 0x5f && (c1 == 0x75 || c1 == 0x55)
}

/// Extract the meaningful cookie value from the supplied credential: a
/// `;`-joined credential yields the value of its first `_U`-keyed pair,
/// compared case-insensitively, and fails when no pair matches; a
/// credential without `;` is taken as the value itself.
pub fn extract_u_value(cookie: &[u8]) -> (r: Result<Vec<u8>, Error>)
    ensures
        match normalized_credential(cookie@) {
            Some(v) => r is Ok && r->Ok_0@ == v,
            None => r == Result::<Vec<u8>, Error>::Err(Error::CredentialNotFound),
        },
{
    let len = cookie.len();
    let semi = scan_for_byte(cookie, PAIR_SEPARATOR, 0);
    proof {
        assert(cookie@.skip(0) =~= cookie@);
        if semi == len {
            assert(forall|i: int| 0 <= i < len ==> cookie@[i] != PAIR_SEPARATOR);
            assert(!cookie@.contains(PAIR_SEPARATOR));
        } else {
            assert(cookie@.contains(PAIR_SEPARATOR));
        }
    }
    if semi == len {
        return Ok(vstd::slice::slice_to_vec(cookie));
    }
    let mut pos: usize = 0;
    let mut finished = false;
    while !finished
        invariant
            len == cookie@.len(),
            cookie@.contains(PAIR_SEPARATOR),
            !finished ==> pos <= len && u_value_of_pairs(cookie_pairs(cookie@.skip(pos as int)))
                == u_value_of_pairs(cookie_pairs(cookie@)),
            finished ==> u_value_of_pairs(cookie_pairs(cookie@)) is None,
        decreases len - pos, (if finished { 0int } else { 1int }),
    {
        let ghost rest = cookie@.skip(pos as int);
        let j = scan_for_byte(cookie, PAIR_SEPARATOR, pos);
        let ghost piece = cookie@.subrange(pos as int, j as int);
        proof {
            assert(rest.take(j - pos) =~= piece);
            lemma_find_byte_bounds(rest, PAIR_SEPARATOR);
            if j < len {
                assert(rest.skip(j - pos + 1) =~= cookie@.skip(j + 1));
                assert(cookie_pairs(rest) == seq![piece] + cookie_pairs(cookie@.skip(j + 1)));
                assert((seq![piece] + cookie_pairs(cookie@.skip(j + 1))).drop_first()
                    =~= cookie_pairs(cookie@.skip(j + 1)));
                assert((seq![piece] + cookie_pairs(cookie@.skip(j + 1)))[0] == piece);
            } else {
                assert(piece =~= rest);
                assert(cookie_pairs(rest) == seq![piece]);
                assert(seq![piece].drop_first() =~= Seq::<Seq<u8>>::empty());
                assert(seq![piece][0] == piece);
                assert(u_value_of_pairs(Seq::<Seq<u8>>::empty()) is None);
            }
        }
        // Trim the piece and split it at the first `=`.
        let (lo, hi) = trim_range(cookie, pos, j);
        let ghost t = trim(piece);
        let eq = scan_for_byte(cookie, KEY_VALUE_SEPARATOR, lo);
        proof {
            if lo < hi {
                assert(t =~= cookie@.subrange(lo as int, hi as int));
            }
        }
        if eq < hi {
            // The piece holds a key; compare it.
            proof {
                let teq = eq - lo;
                assert forall|i: int| 0 <= i < teq implies t[i] != KEY_VALUE_SEPARATOR by {
                    assert(t[i] == cookie@[lo + i]);
                }
                assert(t[teq] == cookie@[eq as int]);
                lemma_find_byte_unique(t, KEY_VALUE_SEPARATOR, teq);
                assert(t.take(teq) =~= cookie@.subrange(lo as int, eq as int));
                assert(t.skip(teq + 1) =~= cookie@.subrange(eq as int + 1, hi as int));
            }
            if key_is_u(cookie, lo, eq) {
                let value = vstd::slice::slice_to_vec(
                    vstd::slice::slice_subrange(cookie, eq + 1, hi),
                );
                proof {
                    let teq = eq - lo;
                    assert(pair_fields(piece) == Some((t.take(teq), t.skip(teq + 1))));
                    assert(is_u_key(t.take(teq)));
                    assert(u_value_of_pairs(cookie_pairs(rest)) == Some(t.skip(teq + 1)));
                    assert(u_value_of_pairs(cookie_pairs(cookie@)) == Some(t.skip(teq + 1)));
                    assert(cookie@.contains(PAIR_SEPARATOR));
                    assert(normalized_credential(cookie@) == Some(t.skip(teq + 1)));
                    assert(value@ == t.skip(teq + 1));
                }
                return Ok(value);
            }
        } else {
            proof {
                if lo < hi {
                    assert forall|i: int| 0 <= i < t.len() implies t[i] != KEY_VALUE_SEPARATOR by {
                        assert(t[i] == cookie@[lo + i]);
                    }
                    lemma_find_byte_unique(t, KEY_VALUE_SEPARATOR, t.len() as int);
                } else {
                    assert(t.len() == 0);
                }
                assert(pair_fields(piece) is None);
            }
        }
        if j < len {
            pos = j + 1;
        } else {
            finished = true;
        }
    }
    Err(Error::CredentialNotFound)
}

/// Prefix the extracted value with `_U=`, the form the bootstrap request
/// carries in its cookie header.
pub fn cookie_header(value: &[u8]) -> (r: Vec<u8>)
    ensures
        r@ == seq![0x5fu8, 0x55u8, 0x3du8] + value@,
{
    let mut out: Vec<u8> = Vec::new();
    out.push(0x5f);
    out.push(0x55);
    out.push(0x3d);
    out.extend_from_slice(value);
    proof {
        assert(out@ =~= seq![0x5fu8, 0x55u8, 0x3du8] + value@);
    }
    out
}

/// Whichever position the first `_U`-keyed pair holds among the joined
/// pairs, and in either letter case, normalization extracts exactly its
/// value; the pairs before it contribute nothing.
pub proof fn lemma_u_pair_extracted(cred: Seq<u8>, k: int)
    requires
        cred.contains(PAIR_SEPARATOR),
        0 <= k < cookie_pairs(cred).len(),
        pair_fields(cookie_pairs(cred)[k]) is Some,
        is_u_key(pair_fields(cookie_pairs(cred)[k])->Some_0.0),
        forall|j: int| 0 <= j < k ==> !(#[trigger] pair_fields(cookie_pairs(cred)[j]) matches Some(
            f,
        ) && is_u_key(f.0)),
    ensures
        normalized_credential(cred) == Some(pair_fields(cookie_pairs(cred)[k])->Some_0.1),
{
    lemma_u_value_first_match(cookie_pairs(cred), k);
}

/// A credential with several pairs and no `_U`-keyed pair normalizes to
/// nothing, so bootstrap rejects it before any network call.
pub proof fn lemma_no_u_pair_rejected(cred: Seq<u8>)
    requires
        cred.contains(PAIR_SEPARATOR),
        forall|j: int|
            0 <= j < cookie_pairs(cred).len() ==> !(#[trigger] pair_fields(
                cookie_pairs(cred)[j],
            ) matches Some(f) && is_u_key(f.0)),
    ensures
        normalized_credential(cred) is None,
{
    lemma_u_value_no_match(cookie_pairs(cred));
}

proof fn lemma_u_value_first_match(ps: Seq<Seq<u8>>, k: int)
    requires
        0 <= k < ps.len(),
        pair_fields(ps[k]) is Some,
        is_u_key(pair_fields(ps[k])->Some_0.0),
        forall|j: int| 0 <= j < k ==> !(#[trigger] pair_fields(ps[j]) matches Some(f) && is_u_key(
            f.0,
        )),
    ensures
        u_value_of_pairs(ps) == Some(pair_fields(ps[k])->Some_0.1),
    decreases k,
{
    if k > 0 {
        assert(ps.drop_first()[k - 1] == ps[k]);
        assert forall|j: int| 0 <= j < k - 1 implies !(#[trigger] pair_fields(
            ps.drop_first()[j],
        ) matches Some(f) && is_u_key(f.0)) by {
            assert(ps.drop_first()[j] == ps[j + 1]);
        }
        lemma_u_value_first_match(ps.drop_first(), k - 1);
    }
}

proof fn lemma_u_value_no_match(ps: Seq<Seq<u8>>)
    requires
        forall|j: int| 0 <= j < ps.len() ==> !(#[trigger] pair_fields(ps[j]) matches Some(f)
            && is_u_key(f.0)),
    ensures
        u_value_of_pairs(ps) is None,
    decreases ps.len(),
{
    if ps.len() > 0 {
        assert forall|j: int| 0 <= j < ps.drop_first().len() implies !(#[trigger] pair_fields(
            ps.drop_first()[j],
        ) matches Some(f) && is_u_key(f.0)) by {
            assert(ps.drop_first()[j] == ps[j + 1]);
        }
        lemma_u_value_no_match(ps.drop_first());
    }
}

} // verus!
