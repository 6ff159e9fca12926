//! Request signing: `base64(HMAC-SHA1(HMAC-SHA1(secret, date), string_to_sign))`.

use vstd::prelude::*;
use vstd::utf8::encode_utf8;

verus! {

/// HMAC-SHA1 of `message` under `key`.
pub uninterp spec fn hmac_sha1_of(key: Seq<u8>, message: Seq<u8>) -> Seq<u8>;

/// The digit of the standard base64 alphabet for a six-bit value.
pub open spec fn base64_digit(v: int) -> char {
    if v < 26 {
        (65 + v) as u8 as char
    } else if v < 52 {
        (97 + v - 26) as u8 as char
    } else if v < 62 {
        (48 + v - 52) as u8 as char
    } else if v == 62 {
        '+'
    } else {
        '/'
    }
}

/// Standard base64 text, with `=` padding, of `bytes`: each group of three bytes
/// gives four digits of six bits each; a final group of one or two bytes gives
/// two or three digits, padded to four.
pub open spec fn base64_of(bytes: Seq<u8>) -> Seq<char>
    decreases bytes.len(),
{
    if bytes.len() == 0 {
        Seq::empty()
    } else if bytes.len() == 1 {
        let a = bytes[0] as int;
        seq![base64_digit(a / 4), base64_digit((a % 4) * 16), '=', '=']
    } else if bytes.len() == 2 {
        let a = bytes[0] as int;
        let b = bytes[1] as int;
        seq![base64_digit(a / 4), base64_digit((a % 4) * 16 + b / 16), base64_digit((b % 16) * 4), '=']
    } else {
        let a = bytes[0] as int;
        let b = bytes[1] as int;
        let c = bytes[2] as int;
        seq![
            base64_digit(a / 4),
            base64_digit((a % 4) * 16 + b / 16),
            base64_digit((b % 16) * 4 + c / 64),
            base64_digit(c % 64),
        ] + base64_of(bytes.skip(3))
    }
}

/// Relies on hmac_sha1::hmac_sha1: the twenty-byte HMAC-SHA1 of `message` under `key`
/// (any key length is accepted).
#[verifier::external_body]
fn hmac_sha1_digest(key: &[u8], message: &[u8]) -> (r: [u8; 20])
    ensures
        r@ == hmac_sha1_of(key@, message@),
{
    hmac_sha1::hmac_sha1(key, message)
}

/// Relies on base64::encode: standard base64 with padding. It panics only when
/// the encoded length overflows `usize`, which the bound rules out.
#[verifier::external_body]
fn base64_text(bytes: &[u8]) -> (r: String)
    requires
        bytes@.len() <= 1024,
    ensures
        r@ == base64_of(bytes@),
{
    base64::encode(bytes)
}

/// The key derived from the secret and the request date.
pub open spec fn signing_key(secret_key: Seq<char>, date: Seq<char>) -> Seq<u8> {
    hmac_sha1_of(encode_utf8(secret_key), encode_utf8(date))
}

/// The signature of `string_to_sign` for the given secret and date.
pub open spec fn signature(secret_key: Seq<char>, date: Seq<char>, string_to_sign: Seq<char>) -> Seq<
    char,
> {
    base64_of(hmac_sha1_of(signing_key(secret_key, date), encode_utf8(string_to_sign)))
}

/// Signs `string_to_sign`: the signing key is the HMAC-SHA1 of the date under the
/// secret, and the signature is the base64 text of the HMAC-SHA1 of the string
/// under that key.
pub fn sign(secret_key: &str, date: &str, string_to_sign: &str) -> (r: String)
    ensures
        r@ == signature(secret_key@, date@, string_to_sign@),
{
    let key = hmac_sha1_digest(secret_key.as_bytes(), date.as_bytes());
    let digest = hmac_sha1_digest(key.as_slice(), string_to_sign.as_bytes());
    base64_text(digest.as_slice())
}

/// The signature is a function of the secret, the date and the string to sign:
/// equal inputs give equal signatures, however often it is computed.
pub proof fn signature_is_deterministic(
    secret_key: Seq<char>,
    date: Seq<char>,
    string_to_sign: Seq<char>,
    first: Seq<char>,
    second: Seq<char>,
)
    requires
        first == signature(secret_key, date, string_to_sign),
        second == signature(secret_key, date, string_to_sign),
    ensures
        first == second,
{
}

} // verus!
