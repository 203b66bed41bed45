//! Parsing of the session bootstrap response.  The one-shot HTTPS
//! exchange trades the normalized credential for a conversation identity
//! triple; the transport lives in the embedding application, and this
//! module turns the response body into the triple.

use crate::errors::Error;
use vstd::prelude::*;

verus! {

/// The immutable identity of an established conversation, created once
/// per conversation lifetime and required on every subsequent turn.
pub struct ConversationIdentity {
    pub conversation_id: String,
    pub client_id: String,
    pub conversation_signature: String,
}

/// What the response body holds of the identity: the string fields
/// `conversationId`, `clientId` and `conversationSignature` when the
/// bytes are a JSON object carrying all three, nothing otherwise.  A
/// function of the bytes alone.
pub uninterp spec fn identity_fields_of(body: Seq<u8>) -> Option<(Seq<char>, Seq<char>, Seq<char>)>;

/// Relies on serde_json::from_slice, Value::get and Value::as_str: parse
/// the response body and read its three identity fields, a function of
/// the bytes alone.
#[verifier::external_body]
fn read_identity_fields(body: &[u8]) -> (r: Option<(String, String, String)>)
    ensures
        r is Some <==> identity_fields_of(body@) is Some,
        r matches Some(f) ==> identity_fields_of(body@) == Some((f.0@, f.1@, f.2@)),
{
    let v: serde_json::Value = match serde_json::from_slice(body) {
        Ok(v) => v,
        Err(_) => return None,
    };
    let conversation_id = v.get("conversationId").and_then(|f| f.as_str())?.to_string();
    let client_id = v.get("clientId").and_then(|f| f.as_str())?.to_string();
    let signature = v.get("conversationSignature").and_then(|f| f.as_str())?.to_string();
    Some((conversation_id, client_id, signature))
}

/// Assemble the identity triple from the three response fields: the
/// triple exists exactly when all three fields do, and a missing field
/// is a decode failure.
pub fn identity_from_fields(
    conversation_id: Option<String>,
    client_id: Option<String>,
    conversation_signature: Option<String>,
) -> (r: Result<ConversationIdentity, Error>)
    ensures
        r is Ok <==> (conversation_id is Some && client_id is Some
            && conversation_signature is Some),
        r is Ok ==> r->Ok_0.conversation_id == conversation_id->Some_0
            && r->Ok_0.client_id == client_id->Some_0 && r->Ok_0.conversation_signature
            == conversation_signature->Some_0,
        r is Err ==> r->Err_0 == Error::DecodeError,
{
    match (conversation_id, client_id, conversation_signature) {
        (Some(conversation_id), Some(client_id), Some(conversation_signature)) => Ok(
            ConversationIdentity { conversation_id, client_id, conversation_signature },
        ),
        _ => Err(Error::DecodeError),
    }
}

/// Parse the bootstrap response body into the identity triple: success
/// exactly when the body is a JSON object carrying `conversationId`,
/// `clientId` and `conversationSignature`, and then the triple holds
/// exactly those three fields; anything else is a decode error.
pub fn parse_identity(body: &[u8]) -> (r: Result<ConversationIdentity, Error>)
    ensures
        r is Ok <==> identity_fields_of(body@) is Some,
        r matches Ok(c) ==> identity_fields_of(body@) == Some(
            (c.conversation_id@, c.client_id@, c.conversation_signature@),
        ),
        r is Err ==> r->Err_0 == Error::DecodeError,
{
    match read_identity_fields(body) {
        Some((conversation_id, client_id, conversation_signature)) => identity_from_fields(
            Some(conversation_id),
            Some(client_id),
            Some(conversation_signature),
        ),
        None => Err(Error::DecodeError),
    }
}

} // verus!
