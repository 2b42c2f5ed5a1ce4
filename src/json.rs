use vstd::prelude::*;

verus! {

#[verifier::external_type_specification]
#[verifier::external_body]
pub struct ExJsonError(serde_json::Error);

/// Whether serde_json accepts `bytes` as one JSON document: well-formed
/// UTF-8 JSON, nested at most 128 levels deep.
pub uninterp spec fn json_accepts(bytes: Seq<u8>) -> bool;

/// The indented text that serde_json writes for the document in `bytes`.
pub uninterp spec fn pretty_json_of(bytes: Seq<u8>) -> Seq<char>;

/// Relies on serde_json::from_slice into a `serde_json::Value`, and on
/// serde_json::to_string_pretty of that value. Parsing succeeds exactly on
/// the documents `json_accepts`; writing a `Value` back out cannot fail (its
/// object keys are strings and the output is an in-memory buffer). Both
/// results depend on the bytes alone.
#[verifier::external_body]
pub(crate) fn reformat_json(bytes: &[u8]) -> (r: Result<String, serde_json::Error>)
    ensures
        r is Ok <==> json_accepts(bytes@),
        r matches Ok(s) ==> s@ == pretty_json_of(bytes@),
{
    serde_json::from_slice::<serde_json::Value>(bytes).and_then(|v| serde_json::to_string_pretty(&v))
}

} // verus!
