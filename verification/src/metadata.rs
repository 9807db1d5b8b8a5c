use vstd::prelude::*;

verus! {

/// The collection symbol held in a serialized asset-metadata record, or
/// `None` when the bytes do not decode as such a record. Decoding is a
/// function of the bytes alone.
pub uninterp spec fn decoded_symbol(data: Seq<u8>) -> Option<Seq<char>>;

/// Relies on `mpl_token_metadata::accounts::Metadata::from_bytes`: decodes a
/// serialized asset-metadata record from the given bytes and, on success,
/// hands out its collection symbol. The result depends on the bytes alone.
#[verifier::external_body]
pub(crate) fn decode_symbol(data: &[u8]) -> (r: Option<String>)
    ensures
        r matches Some(s) ==> decoded_symbol(data@) == Some(s@),
        r is None ==> decoded_symbol(data@) is None,
{
    match mpl_token_metadata::accounts::Metadata::from_bytes(data) {
        Ok(m) => Some(m.symbol),
        Err(_) => None,
    }
}

} // verus!
