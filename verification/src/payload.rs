//! Share proofs as text, which is how the queue keeps them.

use vstd::prelude::*;

verus! {

#[verifier::external_type_specification]
#[verifier::external_body]
pub struct ExValue(serde_json::Value);

#[verifier::external_type_specification]
#[verifier::external_body]
pub struct ExJsonError(serde_json::Error);

/// Why a queued proof cannot be sent.
#[derive(Debug)]
pub enum QueuedProofError {
    Unreadable(serde_json::Error),
}

/// The JSON text of a value.
pub uninterp spec fn json_text(value: serde_json::Value) -> Seq<char>;

/// The value that JSON text stands for, if it is JSON.
pub uninterp spec fn json_value(text: Seq<char>) -> Option<serde_json::Value>;

/// `serde_json::to_string` writes a value as JSON. A value holds neither keys that are not text
/// nor numbers that are not finite, so that writing it does not fail, and the text depends on
/// the value alone.
#[verifier::external_body]
fn write_json(value: &serde_json::Value) -> (text: Result<String, serde_json::Error>)
    ensures
        text is Ok,
        text->Ok_0@ == json_text(*value),
{
    serde_json::to_string(value)
}

/// `serde_json::from_str` reads JSON text. Whether it is JSON, and what value it stands for,
/// depends on the text alone. Nothing relates it to writing: a fractional number may be read
/// back as a neighbour of the number that was written.
#[verifier::external_body]
fn read_json(text: &str) -> (value: Result<serde_json::Value, serde_json::Error>)
    ensures
        value is Ok <==> json_value(text@) is Some,
        value is Ok ==> json_value(text@) == Some(value->Ok_0),
{
    serde_json::from_str(text)
}

/// Writes a proof as the queue keeps it.
pub fn proof_payload(proof: &serde_json::Value) -> (payload: String)
    ensures
        payload@ == json_text(*proof),
{
    write_json(proof).unwrap()
}

/// Reads a proof that the queue kept.
pub fn queued_proof(payload: &str) -> (proof: Result<serde_json::Value, QueuedProofError>)
    ensures
        proof is Ok <==> json_value(payload@) is Some,
        proof is Ok ==> json_value(payload@) == Some(proof->Ok_0),
{
    match read_json(payload) {
        Ok(proof) => Ok(proof),
        Err(e) => Err(QueuedProofError::Unreadable(e)),
    }
}

} // verus!
