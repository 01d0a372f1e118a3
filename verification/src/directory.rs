use vstd::prelude::*;

verus! {

/// What a directory response decodes to: the identifier list its bytes
/// spell as a JSON array of strings, or nothing when they spell no such
/// array.  Decoding is a function of the bytes alone.
pub uninterp spec fn decoded_id_list(bytes: Seq<u8>) -> Option<Seq<Seq<char>>>;

/// Relies on near_sdk::serde_json::from_slice::<Vec<String>>: it
/// deserializes a JSON array of strings from the bytes, deterministically,
/// and errs on any input that is not one.
#[verifier::external_body]
pub(crate) fn decode_id_list(bytes: &Vec<u8>) -> (r: Option<Vec<String>>)
    ensures
        match r {
            Some(ids) => decoded_id_list(bytes@) == Some(ids.deep_view()),
            None => decoded_id_list(bytes@) is None,
        },
{
    match near_sdk::serde_json::from_slice::<Vec<String>>(bytes) {
        Ok(ids) => Some(ids),
        Err(_) => None,
    }
}

} // verus!
