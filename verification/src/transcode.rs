//! Base 64, as the standard engine of the `base64` crate writes and reads it.
//!
//! The encoding itself is not restated here: what the engine returns is
//! given a name, and the contracts of the library speak of that name.

use vstd::prelude::*;

verus! {

/// The error that `base64` reports for text that it cannot decode.
#[verifier::external_type_specification]
#[verifier::external_body]
pub struct ExDecodeError(base64::DecodeError);

/// The text that the standard engine writes for `bytes`: the standard
/// alphabet, with padding.
pub uninterp spec fn base64_text(bytes: Seq<u8>) -> Seq<char>;

/// The bytes that the standard engine reads from `text`, or `None` where it
/// rejects the text.
pub uninterp spec fn base64_bytes(text: Seq<char>) -> Option<Seq<u8>>;

/// The length of the text for `len` bytes: four characters for every three
/// bytes, the last group padded.
pub open spec fn encoded_len(len: nat) -> nat {
    4 * ((len + 2) / 3)
}

/// Whether the text for `len` bytes has a length that the machine can hold.
pub open spec fn encodable(len: nat) -> bool {
    encoded_len(len) <= usize::MAX
}

/// Whether the text for `len` bytes has a length that the machine can hold.
pub fn can_encode(len: usize) -> (r: bool)
    ensures
        r == encodable(len as nat),
{
    let groups = if len % 3 == 0 {
        len / 3
    } else {
        len / 3 + 1
    };
    groups <= usize::MAX / 4
}

/// Calls `Engine::encode` of `base64` on its `STANDARD` engine.
///
/// Believed, not proved: the call returns the text named `base64_text`. The
/// engine panics where the length of the text overflows `usize`; those
/// inputs are left out.
#[verifier::external_body]
pub(crate) fn encode_standard(bytes: &Vec<u8>) -> (text: String)
    requires
        encodable(bytes@.len()),
    ensures
        text@ == base64_text(bytes@),
{
    base64::Engine::encode(&base64::engine::general_purpose::STANDARD, bytes)
}

/// Calls `Engine::decode` of `base64` on its `STANDARD` engine.
///
/// Believed, not proved: the call returns the bytes named `base64_bytes`,
/// and an error exactly where that name is `None`.
#[verifier::external_body]
pub(crate) fn decode_standard(text: &str) -> (r: Result<Vec<u8>, base64::DecodeError>)
    ensures
        match r {
            Ok(bytes) => base64_bytes(text@) == Some(bytes@),
            Err(_) => base64_bytes(text@) is None,
        },
{
    base64::Engine::decode(&base64::engine::general_purpose::STANDARD, text)
}

} // verus!
