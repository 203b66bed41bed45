//! Codec for the delimiter-framed JSON object stream carried on the
//! websocket.  A single websocket message may pack several frames, each a
//! JSON object, separated by the delimiter byte and optionally surrounded
//! by whitespace.

use crate::bytes::{
    find_byte, is_ws_byte, lemma_find_byte_bounds, lemma_find_byte_unique,
    lemma_ws_prefix_len_unique, lemma_ws_suffix_len_unique, scan_for_byte, trim, trim_range,
};
use vstd::prelude::*;

verus! {

/// The byte that separates frames inside one websocket message.
pub const DELIMITER: u8 = 0x1e;

/// What one piece between delimiters contributes to the frame list: its
/// trimmed bytes, or nothing when only whitespace is left.
pub open spec fn piece_frames(p: Seq<u8>) -> Seq<Seq<u8>> {
    if trim(p).len() == 0 {
        Seq::empty()
    } else {
        seq![trim(p)]
    }
}

/// The frames carried by one websocket message: split on the delimiter,
/// trim each piece, and drop the pieces that are empty after trimming.
pub open spec fn frames(s: Seq<u8>) -> Seq<Seq<u8>>
    decreases s.len(),
    via frames_decreases
{
    let fd = find_byte(s, DELIMITER);
    if fd == s.len() {
        piece_frames(s)
    } else {
        piece_frames(s.take(fd)) + frames(s.skip(fd + 1))
    }
}

#[via_fn]
proof fn frames_decreases(s: Seq<u8>) {
    lemma_find_byte_bounds(s, DELIMITER);
}

/// Append the delimiter after one serialized frame, making it ready to be
/// sent as (part of) a websocket message.
pub fn encode_frame(payload: &[u8]) -> (r: Vec<u8>)
    ensures
        r@ == payload@.push(DELIMITER),
{
    let mut out = vstd::slice::slice_to_vec(payload);
    out.push(DELIMITER);
    out
}

/// Split one websocket message into its frames: pieces between delimiter
/// bytes, each trimmed of surrounding ASCII whitespace, whitespace-only
/// pieces dropped.  A later stage parses each frame as JSON on its own,
/// so one malformed frame cannot spoil its neighbours.
pub fn decode_message(msg: &[u8]) -> (r: Vec<Vec<u8>>)
    ensures
        r@.map_values(|p: Vec<u8>| p@) == frames(msg@),
{
    let len = msg.len();
    let mut out: Vec<Vec<u8>> = Vec::new();
    let mut pos: usize = 0;
    let mut finished = false;
    proof {
        assert(msg@.skip(0) =~= msg@);
        assert(out@.map_values(|p: Vec<u8>| p@) =~= Seq::<Seq<u8>>::empty());
        assert(out@.map_values(|p: Vec<u8>| p@) + frames(msg@) =~= frames(msg@));
    }
    while !finished
        invariant
            len == msg@.len(),
            !finished ==> pos <= len && out@.map_values(|p: Vec<u8>| p@) + frames(
                msg@.skip(pos as int),
            ) == frames(msg@),
            finished ==> out@.map_values(|p: Vec<u8>| p@) == frames(msg@),
        decreases len - pos, (if finished { 0int } else { 1int }),
    {
        let ghost rest = msg@.skip(pos as int);
        let j = scan_for_byte(msg, DELIMITER, pos);
        let ghost piece = msg@.subrange(pos as int, j as int);
        proof {
            assert(rest.take(j - pos) =~= piece);
        }
        let (lo, hi) = trim_range(msg, pos, j);
        let ghost out_views_before = out@.map_values(|p: Vec<u8>| p@);
        if lo < hi {
            let frame = vstd::slice::slice_to_vec(vstd::slice::slice_subrange(msg, lo, hi));
            out.push(frame);
            proof {
                assert(out@.map_values(|p: Vec<u8>| p@) =~= out_views_before.push(
                    msg@.subrange(lo as int, hi as int),
                ));
            }
        }
        proof {
            if j < len {
                assert(rest.skip(j - pos + 1) =~= msg@.skip(j + 1));
                assert(frames(rest) == piece_frames(piece) + frames(msg@.skip(j + 1)));
                assert(out@.map_values(|p: Vec<u8>| p@) + frames(msg@.skip(j + 1))
                    =~= out_views_before + frames(rest));
            } else {
                assert(piece =~= rest);
                assert(frames(rest) == piece_frames(piece));
                assert(out@.map_values(|p: Vec<u8>| p@) =~= out_views_before + frames(rest));
            }
        }
        if j < len {
            pos = j + 1;
        } else {
            finished = true;
        }
    }
    out
}

/// Two encoded frames packed into one websocket message, as the provider
/// does with logically distinct frames, are recovered unchanged and in
/// order by decoding.
pub proof fn lemma_packed_frames_round_trip(a: Seq<u8>, b: Seq<u8>)
    requires
        a.len() > 0,
        forall|i: int| 0 <= i < a.len() ==> a[i] != DELIMITER,
        !is_ws_byte(a[0]),
        !is_ws_byte(a.last()),
        b.len() > 0,
        forall|i: int| 0 <= i < b.len() ==> b[i] != DELIMITER,
        !is_ws_byte(b[0]),
        !is_ws_byte(b.last()),
    ensures
        frames(a.push(DELIMITER) + b.push(DELIMITER)) == seq![a, b],
{
    let s = a.push(DELIMITER) + b.push(DELIMITER);
    lemma_find_byte_unique(s, DELIMITER, a.len() as int);
    assert(s.take(a.len() as int) =~= a);
    assert(s.skip(a.len() as int + 1) =~= b.push(DELIMITER));
    lemma_frame_round_trip(b);
    lemma_ws_prefix_len_unique(a, 0);
    lemma_ws_suffix_len_unique(a, 0);
    assert(trim(a) =~= a);
    assert(frames(s) =~= seq![a, b]);
}

/// Round trip of the delimiter framing: a single encoded frame whose
/// payload holds no delimiter byte and no surrounding whitespace is
/// recovered unchanged by decoding.
pub proof fn lemma_frame_round_trip(payload: Seq<u8>)
    requires
        payload.len() > 0,
        forall|i: int| 0 <= i < payload.len() ==> payload[i] != DELIMITER,
        !is_ws_byte(payload[0]),
        !is_ws_byte(payload.last()),
    ensures
        frames(payload.push(DELIMITER)) == seq![payload],
{
    let s = payload.push(DELIMITER);
    lemma_find_byte_unique(s, DELIMITER, payload.len() as int);
    assert(s.take(payload.len() as int) =~= payload);
    assert(s.skip(payload.len() as int + 1) =~= Seq::<u8>::empty());
    lemma_ws_prefix_len_unique(payload, 0);
    lemma_ws_suffix_len_unique(payload, 0);
    assert(trim(payload) =~= payload);
    assert(frames(Seq::<u8>::empty()) =~= Seq::<Seq<u8>>::empty());
    assert(frames(s) =~= seq![payload]);
}

} // verus!
