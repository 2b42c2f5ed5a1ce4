use vstd::prelude::*;

verus! {

/// The text of `bytes` read as UTF-8, each malformed sequence replaced by
/// U+FFFD.
pub uninterp spec fn lossy_text_of(bytes: Seq<u8>) -> Seq<char>;

/// Relies on std's String::from_utf8_lossy: the text depends on the bytes
/// alone.
#[verifier::external_body]
pub(crate) fn decode_lossy(bytes: &[u8]) -> (r: String)
    ensures
        r@ == lossy_text_of(bytes@),
{
    String::from_utf8_lossy(bytes).into_owned()
}

} // verus!
