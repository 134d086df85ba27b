//! Text encodings of byte strings: padded standard base64 and UTF-8.

use base64::engine::general_purpose::STANDARD;
use base64::Engine;
use vstd::prelude::*;
use vstd::utf8::*;

verus! {

/// The padded, standard-alphabet base64 text of a byte string.
pub uninterp spec fn spec_base64_encode(bytes: Seq<u8>) -> Seq<char>;

/// The bytes that a padded, standard-alphabet base64 text spells, or `None`
/// where the text is not canonical base64.
pub uninterp spec fn spec_base64_decode(text: Seq<char>) -> Option<Seq<u8>>;

/// Whether the base64 text of `len` bytes has a length that fits `usize`.
pub open spec fn base64_fits(len: nat) -> bool {
    len / 3 * 4 + 4 <= usize::MAX
}

/// Calls `Engine::encode` on `general_purpose::STANDARD`: the named text,
/// which decodes back to the same bytes.
#[verifier::external_body]
fn base64_encode(bytes: &[u8]) -> (text: String)
    requires
        base64_fits(bytes@.len()),
    ensures
        text@ == spec_base64_encode(bytes@),
        spec_base64_decode(text@) == Some(bytes@),
{
    STANDARD.encode(bytes)
}

/// Calls `Engine::decode` on `general_purpose::STANDARD`: the named bytes,
/// or `None` where the engine reports an error.
#[verifier::external_body]
pub(crate) fn base64_decode(text: &str) -> (bytes: Option<Vec<u8>>)
    ensures
        bytes is Some <==> spec_base64_decode(text@) is Some,
        bytes matches Some(b) ==> spec_base64_decode(text@) == Some(b@),
{
    STANDARD.decode(text).ok()
}

/// Calls `String::from_utf8`: the text that the bytes encode, or `None`
/// where they are not valid UTF-8.
#[verifier::external_body]
fn string_from_utf8(bytes: Vec<u8>) -> (text: Option<String>)
    ensures
        text is Some <==> valid_utf8(bytes@),
        text matches Some(t) ==> t@ == decode_utf8(bytes@),
{
    String::from_utf8(bytes).ok()
}

/// Encodes bytes as base64, or gives `None` where the text would be too
/// long to hold.
pub fn encode(bytes: &[u8]) -> (text: Option<String>)
    ensures
        text is Some <==> base64_fits(bytes@.len()),
        text matches Some(t) ==> t@ == spec_base64_encode(bytes@) && spec_base64_decode(t@)
            == Some(bytes@),
{
    if bytes.len() / 3 > (usize::MAX - 4) / 4 {
        None
    } else {
        Some(base64_encode(bytes))
    }
}

/// Encodes a byte string whose text is known to fit.
pub fn encode_short(bytes: &[u8]) -> (text: String)
    requires
        base64_fits(bytes@.len()),
    ensures
        text@ == spec_base64_encode(bytes@),
        spec_base64_decode(text@) == Some(bytes@),
{
    base64_encode(bytes)
}

/// The bytes that a base64 text spells, if there are exactly `n` of them.
pub open spec fn decode_exact_spec(text: Seq<char>, n: nat) -> Option<Seq<u8>> {
    match spec_base64_decode(text) {
        Some(bytes) => if bytes.len() == n {
            Some(bytes)
        } else {
            None
        },
        None => None,
    }
}

/// Copies a byte string of length `N` into an array.
pub fn to_array<const N: usize>(bytes: &[u8]) -> (array: Option<[u8; N]>)
    ensures
        array is Some <==> bytes@.len() == N,
        array matches Some(a) ==> a@ == bytes@,
{
    if bytes.len() != N {
        return None;
    }
    let mut array = [0u8; N];
    let mut i: usize = 0;
    while i < N
        invariant
            i <= N,
            bytes@.len() == N,
            forall|j: int| 0 <= j < i ==> array@[j] == bytes@[j],
        decreases N - i,
    {
        array[i] = bytes[i];
        i = i + 1;
    }
    assert(array@ =~= bytes@);
    Some(array)
}

/// Decodes base64 text that must spell exactly `N` bytes.
pub fn decode_exact<const N: usize>(text: &str) -> (array: Option<[u8; N]>)
    ensures
        array is Some <==> decode_exact_spec(text@, N as nat) is Some,
        array matches Some(a) ==> decode_exact_spec(text@, N as nat) == Some(a@),
{
    match base64_decode(text) {
        Some(bytes) => to_array::<N>(bytes.as_slice()),
        None => None,
    }
}

/// The text that bytes encode, if they are valid UTF-8.
pub open spec fn utf8_text_spec(bytes: Seq<u8>) -> Option<Seq<char>> {
    if valid_utf8(bytes) {
        Some(decode_utf8(bytes))
    } else {
        None
    }
}

/// Reads bytes as UTF-8 text.
pub fn utf8_text(bytes: Vec<u8>) -> (text: Option<String>)
    ensures
        text is Some <==> utf8_text_spec(bytes@) is Some,
        text matches Some(t) ==> utf8_text_spec(bytes@) == Some(t@),
{
    string_from_utf8(bytes)
}

/// Reading back the UTF-8 bytes of a text gives the text.
pub proof fn lemma_utf8_round_trip(text: Seq<char>)
    ensures
        utf8_text_spec(encode_utf8(text)) == Some(text),
{
    encode_utf8_valid_utf8(text);
    encode_utf8_decode_utf8(text);
}

} // verus!
