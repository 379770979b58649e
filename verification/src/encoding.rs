//! The two decoders that the credential codec takes from elsewhere: base64
//! from the `base64` crate and UTF-8 from the standard library. Their
//! contracts are stated here and believed, not proved.

use base64::Engine;
use vstd::prelude::*;
use vstd::utf8::*;

verus! {

/// The bytes that `input` stands for in base64 with the standard alphabet
/// and canonical padding, or `None` where `input` is no such text. The
/// decoder is the `base64` crate's; this name is all that contracts say of it.
pub uninterp spec fn base64_standard_decode(input: Seq<char>) -> Option<Seq<u8>>;

/// Calls `base64::engine::general_purpose::STANDARD.decode` on `input` and
/// drops the reason of a failure. The contract claims only that the outcome
/// is a function of the characters of `input`, under the name
/// [`base64_standard_decode`]; the crate's decoder returns for every input.
#[verifier::external_body]
pub(crate) fn base64_decode(input: &str) -> (decoded: Option<Vec<u8>>)
    ensures
        decoded matches Some(bytes) ==> base64_standard_decode(input@) == Some(bytes@),
        decoded is None ==> base64_standard_decode(input@) is None,
{
    base64::engine::general_purpose::STANDARD.decode(input).ok()
}

/// The error of `String::from_utf8`; nothing of it is read here.
#[verifier::external_type_specification]
#[verifier::external_body]
pub struct ExFromUtf8Error(std::string::FromUtf8Error);

/// `String::from_utf8` succeeds exactly on well-formed UTF-8, and the text it
/// returns is made of the characters that the bytes encode.
pub assume_specification[ String::from_utf8 ](vec: Vec<u8>) -> (text: Result<
    String,
    std::string::FromUtf8Error,
>)
    ensures
        text is Ok <==> valid_utf8(vec@),
        text matches Ok(s) ==> s@ == decode_utf8(vec@),
;

} // verus!
