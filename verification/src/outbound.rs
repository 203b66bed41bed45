//! Builders for the outbound frames: the protocol negotiation, the
//! keep-alive, and the turn request payload.  Each builder yields the
//! exact bytes of one JSON object, with the interpolated fields escaped
//! as JSON strings; the codec appends the frame delimiter.

use crate::conversation::Conversation;
use vstd::prelude::*;
use vstd::string::StringSliceAdditionalSpecFns;
use vstd::utf8::encode_utf8;

verus! {

/// The byte of the hexadecimal digit for the nibble `n`.
pub open spec fn hex_digit(n: u8) -> u8 {
    if n < 10 {
        (0x30 + n) as u8
    } else {
        (0x57 + n) as u8
    }
}

/// How one byte stands inside a JSON string: quote and backslash are
/// escaped, control characters take the universal escape, anything else
/// passes through.
pub open spec fn escaped_byte(b: u8) -> Seq<u8> {
    if b == 0x22 {
        seq![0x5cu8, 0x22u8]
    } else if b == 0x5c {
        seq![0x5cu8, 0x5cu8]
    } else if b < 0x20 {
        seq![0x5cu8, 0x75u8, 0x30u8, 0x30u8, hex_digit(b / 16), hex_digit(b % 16)]
    } else {
        seq![b]
    }
}

/// The bytes of `s` escaped for the inside of a JSON string.
pub open spec fn json_escaped(s: Seq<u8>) -> Seq<u8>
    decreases s.len(),
{
    if s.len() == 0 {
        Seq::empty()
    } else {
        escaped_byte(s[0]) + json_escaped(s.drop_first())
    }
}

proof fn lemma_json_escaped_snoc(s: Seq<u8>, b: u8)
    ensures
        json_escaped(s.push(b)) == json_escaped(s) + escaped_byte(b),
    decreases s.len(),
{
    if s.len() == 0 {
        assert(s.push(b)[0] == b);
        assert(s.push(b).drop_first() =~= Seq::<u8>::empty());
        assert(json_escaped(Seq::<u8>::empty()) =~= Seq::<u8>::empty());
        assert(json_escaped(s.push(b)) == escaped_byte(b) + json_escaped(s.push(b).drop_first()));
        assert(json_escaped(s) =~= Seq::<u8>::empty());
        assert(json_escaped(s.push(b)) =~= json_escaped(s) + escaped_byte(b));
    } else {
        assert(s.push(b)[0] == s[0]);
        assert(s.push(b).drop_first() =~= s.drop_first().push(b));
        lemma_json_escaped_snoc(s.drop_first(), b);
        assert(json_escaped(s.push(b)) == escaped_byte(s[0]) + (json_escaped(s.drop_first())
            + escaped_byte(b)));
        assert(escaped_byte(s[0]) + (json_escaped(s.drop_first()) + escaped_byte(b))
            =~= (escaped_byte(s[0]) + json_escaped(s.drop_first())) + escaped_byte(b));
    }
}

/// Append the bytes of a literal piece of the frame.
fn append_lit(out: &mut Vec<u8>, s: &str)
    ensures
        final(out)@ == old(out)@ + s.spec_bytes(),
{
    out.extend_from_slice(s.as_bytes());
}

/// Append the bytes of one interpolated field, escaped for the inside
/// of a JSON string.
fn append_escaped(out: &mut Vec<u8>, s: &[u8])
    ensures
        final(out)@ == old(out)@ + json_escaped(s@),
{
    let ghost entry = out@;
    let mut i: usize = 0;
    proof {
        assert(s@.take(0) =~= Seq::<u8>::empty());
        assert(out@ =~= entry + json_escaped(s@.take(0)));
    }
    while i < s.len()
        invariant
            i <= s@.len(),
            out@ == entry + json_escaped(s@.take(i as int)),
        decreases s@.len() - i,
    {
        let b = *vstd::slice::slice_index_get(s, i);
        if b == 0x22 {
            out.push(0x5c);
            out.push(0x22);
        } else if b == 0x5c {
            out.push(0x5c);
            out.push(0x5c);
        } else if b < 0x20 {
            out.push(0x5c);
            out.push(0x75);
            out.push(0x30);
            out.push(0x30);
            out.push(0x30 + b / 16);
            let lo = b % 16;
            if lo < 10 {
                out.push(0x30 + lo);
            } else {
                out.push(0x57 + lo);
            }
        } else {
            out.push(b);
        }
        proof {
            lemma_json_escaped_snoc(s@.take(i as int), s@[i as int]);
            assert(s@.take(i as int + 1) =~= s@.take(i as int).push(s@[i as int]));
            assert(out@ =~= entry + json_escaped(s@.take(i as int + 1)));
        }
        i += 1;
    }
    proof {
        assert(s@.take(s@.len() as int) =~= s@);
    }
}

/// The exact bytes of the protocol-negotiation frame body.
pub open spec fn negotiation_bytes() -> Seq<u8> {
    "{\"protocol\":\"json\",\"version\":1}".spec_bytes()
}

/// The exact bytes of the keep-alive frame body.
pub open spec fn keep_alive_bytes() -> Seq<u8> {
    "{\"type\":6}".spec_bytes()
}

/// Build the protocol-negotiation frame body, the first write of every
/// handshake.
pub fn negotiation_frame() -> (r: Vec<u8>)
    ensures
        r@ == negotiation_bytes(),
{
    let mut out: Vec<u8> = Vec::new();
    append_lit(&mut out, "{\"protocol\":\"json\",\"version\":1}");
    proof {
        assert(out@ =~= negotiation_bytes());
    }
    out
}

/// Build the keep-alive frame body, written once the mandatory first
/// read has arrived.
pub fn keep_alive_frame() -> (r: Vec<u8>)
    ensures
        r@ == keep_alive_bytes(),
{
    let mut out: Vec<u8> = Vec::new();
    append_lit(&mut out, "{\"type\":6}");
    proof {
        assert(out@ =~= keep_alive_bytes());
    }
    out
}

/// The exact bytes of the turn request frame body, assembled from the
/// conversation identity, the turn-start flag, the message text, and
/// the request identifier; every interpolated field is escaped.
pub open spec fn turn_payload_bytes(
    conversation_id: Seq<u8>,
    client_id: Seq<u8>,
    signature: Seq<u8>,
    is_start_of_session: bool,
    text: Seq<u8>,
    invocation_id: Seq<u8>,
) -> Seq<u8> {
    "{\"arguments\":[{\"source\":\"cib\",\"optionsSets\":[\"nlu_direct_response_filter\",\"deepleo\",\"disable_emoji_spoken_text\",\"responsible_ai_policy_235\",\"enablemm\",\"galileo\",\"newspoleansgnd\",\"cachewriteext\",\"e2ecachewrite\",\"dl_edge_prompt\",\"dv3sugg\"],\"isStartOfSession\":".spec_bytes()
        + (if is_start_of_session {
        "true".spec_bytes()
    } else {
        "false".spec_bytes()
    })
        + ",\"message\":{\"author\":\"user\",\"inputMethod\":\"Keyboard\",\"text\":\"".spec_bytes()
        + json_escaped(text) + "\",\"messageType\":\"Chat\"},\"conversationSignature\":\"".spec_bytes()
        + json_escaped(signature) + "\",\"participant\":{\"id\":\"".spec_bytes()
        + json_escaped(client_id) + "\"},\"conversationId\":\"".spec_bytes()
        + json_escaped(conversation_id) + "\"}],\"invocationId\":\"".spec_bytes()
        + json_escaped(invocation_id) + "\",\"target\":\"chat\",\"type\":4}".spec_bytes()
}

/// Build the turn request frame body from explicit fields.
pub fn turn_payload(
    conversation_id: &str,
    client_id: &str,
    signature: &str,
    is_start_of_session: bool,
    text: &str,
    invocation_id: &str,
) -> (r: Vec<u8>)
    ensures
        r@ == turn_payload_bytes(
            conversation_id.spec_bytes(),
            client_id.spec_bytes(),
            signature.spec_bytes(),
            is_start_of_session,
            text.spec_bytes(),
            invocation_id.spec_bytes(),
        ),
{
    let mut out: Vec<u8> = Vec::new();
    append_lit(
        &mut out,
        "{\"arguments\":[{\"source\":\"cib\",\"optionsSets\":[\"nlu_direct_response_filter\",\"deepleo\",\"disable_emoji_spoken_text\",\"responsible_ai_policy_235\",\"enablemm\",\"galileo\",\"newspoleansgnd\",\"cachewriteext\",\"e2ecachewrite\",\"dl_edge_prompt\",\"dv3sugg\"],\"isStartOfSession\":",
    );
    if is_start_of_session {
        append_lit(&mut out, "true");
    } else {
        append_lit(&mut out, "false");
    }
    append_lit(&mut out, ",\"message\":{\"author\":\"user\",\"inputMethod\":\"Keyboard\",\"text\":\"");
    append_escaped(&mut out, text.as_bytes());
    append_lit(&mut out, "\",\"messageType\":\"Chat\"},\"conversationSignature\":\"");
    append_escaped(&mut out, signature.as_bytes());
    append_lit(&mut out, "\",\"participant\":{\"id\":\"");
    append_escaped(&mut out, client_id.as_bytes());
    append_lit(&mut out, "\"},\"conversationId\":\"");
    append_escaped(&mut out, conversation_id.as_bytes());
    append_lit(&mut out, "\"}],\"invocationId\":\"");
    append_escaped(&mut out, invocation_id.as_bytes());
    append_lit(&mut out, "\",\"target\":\"chat\",\"type\":4}");
    proof {
        assert(out@ =~= turn_payload_bytes(
            conversation_id.spec_bytes(),
            client_id.spec_bytes(),
            signature.spec_bytes(),
            is_start_of_session,
            text.spec_bytes(),
            invocation_id.spec_bytes(),
        ));
    }
    out
}

/// Relies on uuid::Uuid::new_v4 and its hyphenated display form: a
/// fresh random request identifier of 36 ASCII characters, hexadecimal
/// digits and hyphens.
#[verifier::external_body]
fn new_invocation_id() -> (r: String)
    ensures
        r@.len() == 36,
        forall|i: int| 0 <= i < r@.len() ==> (r@[i] == '-' || ('0' <= r@[i] && r@[i] <= '9') || (
        'a' <= r@[i] && r@[i] <= 'f')),
{
    uuid::Uuid::new_v4().to_string()
}

/// Build the turn request frame body for this conversation: its
/// identity fields and turn-start flag, the message text, and a freshly
/// generated random request identifier of 36 hyphen or lowercase
/// hexadecimal characters.
pub fn turn_request_frame<W>(conversation: &Conversation<W>, text: &str) -> (r: Vec<u8>)
    ensures
        exists|inv: Seq<char>|
            #![auto]
            r@ == turn_payload_bytes(
                encode_utf8(conversation.spec_id()),
                encode_utf8(conversation.spec_client_id()),
                encode_utf8(conversation.spec_signature()),
                conversation.spec_is_start_of_session(),
                encode_utf8(text@),
                encode_utf8(inv),
            ) && inv.len() == 36 && (forall|i: int| 0 <= i < inv.len() ==> (inv[i] == '-' || ('0'
                <= inv[i] && inv[i] <= '9') || ('a' <= inv[i] && inv[i] <= 'f'))),
{
    let invocation_id = new_invocation_id();
    let r = turn_payload(
        conversation.id(),
        conversation.client_id(),
        conversation.signature(),
        conversation.is_start_of_session(),
        text,
        invocation_id.as_str(),
    );
    proof {
        let inv = invocation_id@;
        assert(r@ == turn_payload_bytes(
            encode_utf8(conversation.spec_id()),
            encode_utf8(conversation.spec_client_id()),
            encode_utf8(conversation.spec_signature()),
            conversation.spec_is_start_of_session(),
            encode_utf8(text@),
            encode_utf8(inv),
        ) && inv.len() == 36 && (forall|i: int| 0 <= i < inv.len() ==> (inv[i] == '-' || ('0'
            <= inv[i] && inv[i] <= '9') || ('a' <= inv[i] && inv[i] <= 'f'))));
    }
    r
}

} // verus!
