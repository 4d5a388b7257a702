//! Byte fields travel in JSON bodies as standard, padded Base64 text
//! (RFC 4648, alphabet `A-Z a-z 0-9 + /`, padded with `=`).

use base64::engine::general_purpose::STANDARD;
use base64::Engine;
use vstd::prelude::*;

verus! {

/// The character of a 6-bit value in the standard alphabet.
pub open spec fn base64_char(v: int) -> char {
    if v < 26 {
        (65 + v) as char
    } else if v < 52 {
        (97 + v - 26) as char
    } else if v < 62 {
        (48 + v - 52) as char
    } else if v == 62 {
        '+'
    } else {
        '/'
    }
}

/// Standard, padded Base64: each group of three bytes becomes four
/// characters of six bits each; a final group of one or two bytes is
/// zero-filled to whole characters and padded with `=` to four.
pub open spec fn base64_encoding(data: Seq<u8>) -> Seq<char>
    decreases data.len(),
{
    if data.len() == 0 {
        Seq::empty()
    } else if data.len() == 1 {
        let b0 = data[0] as int;
        seq![base64_char(b0 / 4), base64_char((b0 % 4) * 16), '=', '=']
    } else if data.len() == 2 {
        let b0 = data[0] as int;
        let b1 = data[1] as int;
        seq![
            base64_char(b0 / 4),
            base64_char((b0 % 4) * 16 + b1 / 16),
            base64_char((b1 % 16) * 4),
            '=',
        ]
    } else {
        let b0 = data[0] as int;
        let b1 = data[1] as int;
        let b2 = data[2] as int;
        seq![
            base64_char(b0 / 4),
            base64_char((b0 % 4) * 16 + b1 / 16),
            base64_char((b1 % 16) * 4 + b2 / 64),
            base64_char(b2 % 64),
        ] + base64_encoding(data.subrange(3, data.len() as int))
    }
}

/// What the standard, padded Base64 engine makes of `text`: the bytes where
/// it accepts the text, or the description of the fault that it reports
/// where it refuses it.
pub uninterp spec fn base64_decode(text: Seq<char>) -> Result<Seq<u8>, Seq<char>>;

/// The engine accepts a text and reads it as `bytes`.
pub open spec fn decoded(bytes: Seq<u8>) -> Result<Seq<u8>, Seq<char>> {
    Ok(bytes)
}

/// The engine refuses a text and describes the fault as `message`.
pub open spec fn refused(message: Seq<char>) -> Result<Seq<u8>, Seq<char>> {
    Err(message)
}

/// Calls `Engine::encode` of `base64::engine::general_purpose::STANDARD`.
/// Claims that the text is the standard padded encoding of the input, and
/// that the same engine decodes that text back to the input (the round trip
/// that the crate's own tests check on random inputs). The engine panics
/// only when the output length overflows `usize`, which the bound on the
/// input rules out.
#[verifier::external_body]
fn standard_encode(data: &[u8]) -> (text: String)
    requires
        data@.len() <= usize::MAX / 2,
    ensures
        text@ == base64_encoding(data@),
        base64_decode(text@) == decoded(data@),
{
    STANDARD.encode(data)
}

/// Calls `Engine::decode` of `base64::engine::general_purpose::STANDARD` on
/// the bytes of `text`, and writes a refusal with the `Display` impl of
/// `base64::DecodeError`. Claims that the outcome is the named one of `text`,
/// and what the engine's source shows of it: with canonical padding required
/// and no stray trailing bits allowed, it accepts exactly the texts that are
/// the standard padded encoding of some bytes, and reads each as those bytes.
#[verifier::external_body]
fn standard_decode(text: &str) -> (r: Result<Vec<u8>, String>)
    ensures
        match r {
            Ok(bytes) => base64_decode(text@) == decoded(bytes@) && text@ == base64_encoding(
                bytes@,
            ),
            Err(message) => base64_decode(text@) == refused(message@),
        },
        (exists|d: Seq<u8>| text@ == #[trigger] base64_encoding(d)) ==> r is Ok,
{
    match STANDARD.decode(text) {
        Ok(bytes) => Ok(bytes),
        Err(error) => Err(format!("{}", error)),
    }
}

/// Reads a byte field from its Base64 text: the text must be the standard
/// padded encoding of the bytes. A text that the standard engine refuses
/// gives the engine's description of the fault.
pub fn deserialize(text: &str) -> (r: Result<Vec<u8>, String>)
    ensures
        match r {
            Ok(bytes) => base64_decode(text@) == decoded(bytes@) && text@ == base64_encoding(
                bytes@,
            ),
            Err(message) => base64_decode(text@) == refused(message@),
        },
        (exists|d: Seq<u8>| text@ == #[trigger] base64_encoding(d)) ==> r is Ok,
{
    standard_decode(text)
}

/// Writes a byte field as standard padded Base64 text; reading that text
/// back with [`deserialize`] gives the same bytes.
pub fn serialize(v: &Vec<u8>) -> (text: String)
    requires
        v@.len() <= usize::MAX / 2,
    ensures
        text@ == base64_encoding(v@),
        base64_decode(text@) == decoded(v@),
{
    standard_encode(v.as_slice())
}

/// Encoding a group of three bytes gives four characters, followed by the
/// encoding of the rest.
pub proof fn lemma_base64_encoding_length(data: Seq<u8>)
    ensures
        base64_encoding(data).len() == 4 * ((data.len() + 2) / 3),
    decreases data.len(),
{
    if data.len() >= 3 {
        lemma_base64_encoding_length(data.subrange(3, data.len() as int));
    }
}

} // verus!
