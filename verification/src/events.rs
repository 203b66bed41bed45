//! The event demultiplexer: inbound frames are classified by their
//! numeric `type` discriminant and turned into a small closed set of
//! conversational events.  Malformed or incomplete frames are skipped,
//! never fatal, so one bad frame cannot spoil the rest of its message.

use crate::codec::{decode_message, frames};
use vstd::prelude::*;

verus! {

/// An event that occurs during a conversation: a partial answer
/// snapshot, or the terminal marker of the current turn.
#[derive(Debug, Clone, PartialEq)]
pub enum ConversationEvent {
    Update(String),
    Complete,
}

/// What one inbound frame asks the driver to do.
#[derive(Debug, Clone, PartialEq)]
pub enum FrameOutcome {
    /// A partial answer snapshot: emit `Update` with the trimmed text.
    Update(String),
    /// The terminal marker: emit `Complete`.
    Complete,
    /// A server-sent close instruction: take the writer from the
    /// connection slot and run the close handshake.
    Close,
    /// The frame is not well-formed JSON: skip it.
    Malformed,
    /// The frame carries no numeric `type` field: skip it.
    MissingType,
    /// An update frame without text: skip it.
    MissingText,
    /// An unrecognized discriminant: skip it.
    Unknown(u64),
}

/// Unicode whitespace, the characters `str::trim` strips: the code
/// points with the White_Space property.
pub open spec fn is_white_char(c: char) -> bool {
    c == '\u{09}' || c == '\u{0a}' || c == '\u{0b}' || c == '\u{0c}' || c == '\u{0d}'
        || c == ' ' || c == '\u{85}' || c == '\u{a0}' || c == '\u{1680}' || ('\u{2000}' <= c
        && c <= '\u{200a}') || c == '\u{2028}' || c == '\u{2029}' || c == '\u{202f}'
        || c == '\u{205f}' || c == '\u{3000}'
}

/// Length of the whitespace run at the front of `s`.
pub open spec fn white_prefix_len(s: Seq<char>) -> int
    decreases s.len(),
{
    if s.len() > 0 && is_white_char(s[0]) {
        1 + white_prefix_len(s.drop_first())
    } else {
        0
    }
}

/// Length of the whitespace run at the back of `s`.
pub open spec fn white_suffix_len(s: Seq<char>) -> int
    decreases s.len(),
{
    if s.len() > 0 && is_white_char(s.last()) {
        1 + white_suffix_len(s.drop_last())
    } else {
        0
    }
}

/// `s` with leading and trailing whitespace removed.
pub open spec fn trim_chars(s: Seq<char>) -> Seq<char> {
    if white_prefix_len(s) == s.len() {
        Seq::empty()
    } else {
        s.subrange(white_prefix_len(s), s.len() - white_suffix_len(s))
    }
}

/// Relies on str::trim: removes the whitespace around the text and
/// nothing else.
#[verifier::external_body]
fn trim_str(s: &str) -> (r: &str)
    ensures
        r@ == trim_chars(s@),
{
    s.trim()
}

/// Classify one parsed frame by its numeric `type` discriminant and the
/// text found under `arguments[0].messages[0].text`, exactly as the
/// protocol prescribes: `1` is a partial answer whose text is trimmed,
/// `2` the terminal marker, `3` a server-sent close instruction, and
/// anything else is skipped.
pub fn classify_frame(type_id: Option<u64>, text: Option<String>) -> (r: FrameOutcome)
    ensures
        type_id is None ==> r == FrameOutcome::MissingType,
        type_id == Some(1u64) && text is None ==> r == FrameOutcome::MissingText,
        type_id == Some(1u64) && text is Some ==> (r matches FrameOutcome::Update(u) && u@
            == trim_chars(text->Some_0@)),
        type_id == Some(2u64) ==> r == FrameOutcome::Complete,
        type_id == Some(3u64) ==> r == FrameOutcome::Close,
        (type_id matches Some(t) && t != 1 && t != 2 && t != 3) ==> r == FrameOutcome::Unknown(
            type_id->Some_0,
        ),
{
    match type_id {
        None => FrameOutcome::MissingType,
        Some(t) => {
            if t == 1 {
                match text {
                    Some(raw) => {
                        let trimmed = trim_str(raw.as_str());
                        FrameOutcome::Update(trimmed.to_owned())
                    },
                    None => FrameOutcome::MissingText,
                }
            } else if t == 2 {
                FrameOutcome::Complete
            } else if t == 3 {
                FrameOutcome::Close
            } else {
                FrameOutcome::Unknown(t)
            }
        },
    }
}

/// The event an outcome delivers to the caller: partial answers and the
/// terminal marker are emitted; everything else is handled or skipped
/// without an event.
pub fn outcome_event(outcome: FrameOutcome) -> (r: Option<ConversationEvent>)
    ensures
        outcome matches FrameOutcome::Update(t) ==> r == Some(ConversationEvent::Update(t)),
        outcome is Complete ==> r == Some(ConversationEvent::Complete),
        !(outcome is Update || outcome is Complete) ==> r is None,
{
    match outcome {
        FrameOutcome::Update(t) => Some(ConversationEvent::Update(t)),
        FrameOutcome::Complete => Some(ConversationEvent::Complete),
        _ => None,
    }
}

/// What one frame's bytes hold of the fields the protocol reads: nothing
/// when the bytes are not a JSON document, else the numeric `type`
/// discriminant and the text under `arguments[0].messages[0].text`, each
/// where present.  A function of the bytes alone.
pub uninterp spec fn frame_fields_of(piece: Seq<u8>) -> Option<(Option<u64>, Option<Seq<char>>)>;

/// Relies on serde_json::from_slice, Value::get, Value::as_u64 and
/// Value::as_str: parse one frame and read the `type` discriminant and
/// the update text, both functions of the frame's bytes alone.
#[verifier::external_body]
fn read_frame(piece: &[u8]) -> (r: Option<(Option<u64>, Option<String>)>)
    ensures
        r is Some <==> frame_fields_of(piece@) is Some,
        r matches Some(f) ==> frame_fields_of(piece@) matches Some(g) && f.0 == g.0 && (f.1
            is Some <==> g.1 is Some) && (f.1 matches Some(t) ==> g.1 == Some(t@)),
{
    let v: serde_json::Value = match serde_json::from_slice(piece) {
        Ok(v) => v,
        Err(_) => return None,
    };
    let type_id = v.get("type").and_then(|t| t.as_u64());
    let text = v
        .get("arguments")
        .and_then(|a| a.get(0))
        .and_then(|a| a.get("messages"))
        .and_then(|m| m.get(0))
        .and_then(|m| m.get("text"))
        .and_then(|t| t.as_str())
        .map(|s| s.to_string());
    Some((type_id, text))
}

/// The outcome owed for one frame: `Malformed` for bytes that are not a
/// JSON document, else the classification of the frame's fields.
pub open spec fn outcome_for(piece: Seq<u8>, o: FrameOutcome) -> bool {
    match frame_fields_of(piece) {
        None => o == FrameOutcome::Malformed,
        Some(fields) => match fields.0 {
            None => o == FrameOutcome::MissingType,
            Some(t) => if t == 1 {
                match fields.1 {
                    None => o == FrameOutcome::MissingText,
                    Some(text) => o matches FrameOutcome::Update(u) && u@ == trim_chars(text),
                }
            } else if t == 2 {
                o == FrameOutcome::Complete
            } else if t == 3 {
                o == FrameOutcome::Close
            } else {
                o == FrameOutcome::Unknown(t)
            },
        },
    }
}

/// Demultiplex one websocket message: split it into frames, parse each
/// frame as JSON on its own, and classify each one.  Exactly one outcome
/// comes back per frame, in the frames' order, each the classification
/// its frame owes; a frame that fails to parse yields `Malformed`
/// without disturbing its neighbours.
pub fn demux_message(msg: &[u8]) -> (r: Vec<FrameOutcome>)
    ensures
        r@.len() == frames(msg@).len(),
        forall|i: int| 0 <= i < r@.len() ==> outcome_for(frames(msg@)[i], #[trigger] r@[i]),
{
    let pieces = decode_message(msg);
    let mut out: Vec<FrameOutcome> = Vec::new();
    let mut i: usize = 0;
    while i < pieces.len()
        invariant
            i <= pieces@.len(),
            out@.len() == i,
            pieces@.map_values(|p: Vec<u8>| p@) == frames(msg@),
            forall|j: int| 0 <= j < i ==> outcome_for(frames(msg@)[j], #[trigger] out@[j]),
        decreases pieces@.len() - i,
    {
        let piece = &pieces[i];
        proof {
            assert(pieces@.map_values(|p: Vec<u8>| p@)[i as int] == pieces@[i as int]@);
        }
        let outcome = match read_frame(piece.as_slice()) {
            Some((type_id, text)) => classify_frame(type_id, text),
            None => FrameOutcome::Malformed,
        };
        proof {
            assert(outcome_for(frames(msg@)[i as int], outcome));
        }
        out.push(outcome);
        i += 1;
    }
    proof {
        assert(frames(msg@).len() == pieces@.map_values(|p: Vec<u8>| p@).len());
    }
    out
}

} // verus!
