use vstd::prelude::*;
use vstd::string::StringSliceAdditionalSpecFns;
use vstd::utf8::encode_utf8;

verus! {

/// Longest reference string, in bytes, that any record may hold.
pub const MAX_URI_LEN: usize = 200;

/// Highest rating: five stars, in hundredths of a star.
pub const MAX_RATING: u64 = 500;

/// Length in bytes of a reference string as it is stored, that is in UTF-8.
pub open spec fn uri_len(uri: Seq<char>) -> nat {
    encode_utf8(uri).len()
}

/// Whether a reference string is short enough to be stored.
pub open spec fn uri_fits(uri: Seq<char>) -> bool {
    uri_len(uri) <= MAX_URI_LEN
}

/// Whether a rating lies above zero and at most at `MAX_RATING`.
pub open spec fn rating_valid(rating: u64) -> bool {
    0 < rating <= MAX_RATING
}

/// Tests whether a reference string is short enough to be stored.
pub fn check_uri(uri: &String) -> (r: bool)
    ensures
        r == uri_fits(uri@),
{
    let bytes = uri.as_str().as_bytes();
    bytes.len() <= MAX_URI_LEN
}

/// Tests whether a rating lies above zero and at most at `MAX_RATING`.
pub fn check_rating(rating: u64) -> (r: bool)
    ensures
        r == rating_valid(rating),
{
    rating > 0 && rating <= MAX_RATING
}

} // verus!
