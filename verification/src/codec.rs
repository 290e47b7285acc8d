//! Challenge material codec.
//!
//! The wire format uses two distinct base64 variants: challenges and
//! credential ids arrive url-safe without padding, while the three assertion
//! fields are sent back standard-alphabet with padding. The two variants are
//! not interchangeable; each direction has its own pair of functions here.
use vstd::prelude::*;
use crate::errors::AuthnError;

verus! {

/// The canonical unpadded standard-alphabet base64 symbols of a byte sequence.
pub uninterp spec fn b64_std_chars(b: Seq<u8>) -> Seq<char>;

/// The canonical unpadded url-safe-alphabet base64 symbols of a byte sequence.
pub uninterp spec fn b64_url_chars(b: Seq<u8>) -> Seq<char>;

/// A run of `k` padding characters.
pub open spec fn pad_chars(k: int) -> Seq<char> {
    Seq::new(k as nat, |i: int| '=')
}

/// The padding that canonical standard base64 appends to the symbols of
/// `n` input bytes.
pub open spec fn b64_std_pad(n: nat) -> Seq<char> {
    if n % 3 == 0 {
        Seq::<char>::empty()
    } else if n % 3 == 1 {
        pad_chars(2)
    } else {
        pad_chars(1)
    }
}

/// The canonical padded standard base64 encoding of a byte sequence.
pub open spec fn b64_std_of(b: Seq<u8>) -> Seq<char> {
    b64_std_chars(b) + b64_std_pad(b.len())
}

/// The inputs the url-safe decoder maps to a given byte result: the canonical
/// symbols of those bytes with at most two trailing padding characters.
pub open spec fn url_decode_accepts(s: Seq<char>, v: Seq<u8>) -> bool {
    exists|k: int| 0 <= k <= 2 && s == b64_url_chars(v) + pad_chars(k)
}

#[verifier::external_type_specification]
#[verifier::external_body]
pub struct ExDecodeError(base64::DecodeError);

/// Relies on base64::encode_config with base64::STANDARD: returns the
/// canonical padded standard-alphabet encoding, a function of the bytes alone.
#[verifier::external_body]
fn encode_standard_raw(bytes: &[u8]) -> (r: String)
    ensures
        r@ == b64_std_of(bytes@),
{
    base64::encode_config(bytes, base64::STANDARD)
}

/// Relies on base64::encode_config with base64::URL_SAFE_NO_PAD: returns the
/// canonical unpadded url-safe encoding, a function of the bytes alone.
#[verifier::external_body]
fn encode_url_safe_raw(bytes: &[u8]) -> (r: String)
    ensures
        r@ == b64_url_chars(bytes@),
{
    base64::encode_config(bytes, base64::URL_SAFE_NO_PAD)
}

/// Relies on base64::decode_config with base64::URL_SAFE_NO_PAD: decoding
/// inverts encoding, so the canonical encoding of any byte sequence is
/// accepted and returns exactly those bytes; a success means the input was
/// that canonical form with at most two trailing padding characters
/// (base64 0.13 tolerates a validly placed padded tail and rejects nonzero
/// trailing bits); everything else - an invalid symbol, an invalid length,
/// a non-canonical tail - is an error value, never a panic.
#[verifier::external_body]
fn decode_url_safe_raw(s: &str) -> (r: Result<Vec<u8>, base64::DecodeError>)
    ensures
        r matches Ok(v) ==> forall|b: Seq<u8>| s@ == b64_url_chars(b) ==> v@ == b,
        r matches Ok(v) ==> exists|k: int| 0 <= k <= 2 && s@ == b64_url_chars(v@) + pad_chars(k),
        r is Err ==> forall|b: Seq<u8>| s@ != b64_url_chars(b),
{
    base64::decode_config(s, base64::URL_SAFE_NO_PAD)
}

/// Relies on base64::decode_config with base64::STANDARD: the canonical padded
/// encoding of any byte sequence is accepted and returns exactly those bytes;
/// a success means the input was the canonical symbols with at most two
/// trailing padding characters; everything else is an error value, never a
/// panic.
#[verifier::external_body]
fn decode_standard_raw(s: &str) -> (r: Result<Vec<u8>, base64::DecodeError>)
    ensures
        r matches Ok(v) ==> forall|b: Seq<u8>| s@ == b64_std_of(b) ==> v@ == b,
        r matches Ok(v) ==> exists|k: int| 0 <= k <= 2 && s@ == b64_std_chars(v@) + pad_chars(k),
        r is Err ==> forall|b: Seq<u8>| s@ != b64_std_of(b),
{
    base64::decode_config(s, base64::STANDARD)
}

/// Encodes bytes as standard padded base64, the variant the verification
/// request fields expect.
pub fn encode_standard(bytes: &Vec<u8>) -> (r: String)
    ensures
        r@ == b64_std_of(bytes@),
{
    encode_standard_raw(bytes.as_slice())
}

/// Encodes bytes as url-safe unpadded base64, the variant challenge material
/// arrives in.
pub fn encode_url_safe(bytes: &Vec<u8>) -> (r: String)
    ensures
        r@ == b64_url_chars(bytes@),
{
    encode_url_safe_raw(bytes.as_slice())
}

/// Decodes url-safe unpadded base64. The canonical encoding of any byte
/// sequence round-trips to exactly those bytes; malformed input is rejected
/// with `DecodeError`.
pub fn decode_url_safe(s: &str) -> (r: Result<Vec<u8>, AuthnError>)
    ensures
        forall|b: Seq<u8>| s@ == b64_url_chars(b) ==> (r matches Ok(v) && v@ == b),
        r matches Ok(v) ==> exists|k: int| 0 <= k <= 2 && s@ == b64_url_chars(v@) + pad_chars(k),
        r matches Err(e) ==> e == AuthnError::DecodeError && forall|b: Seq<u8>| s@ != b64_url_chars(b),
{
    match decode_url_safe_raw(s) {
        Ok(v) => Ok(v),
        Err(_) => Err(AuthnError::DecodeError),
    }
}

/// Decodes standard base64. The canonical padded encoding of any byte
/// sequence round-trips to exactly those bytes; malformed input is rejected
/// with `DecodeError`.
pub fn decode_standard(s: &str) -> (r: Result<Vec<u8>, AuthnError>)
    ensures
        forall|b: Seq<u8>| s@ == b64_std_of(b) ==> (r matches Ok(v) && v@ == b),
        r matches Ok(v) ==> exists|k: int| 0 <= k <= 2 && s@ == b64_std_chars(v@) + pad_chars(k),
        r matches Err(e) ==> e == AuthnError::DecodeError && forall|b: Seq<u8>| s@ != b64_std_of(b),
{
    match decode_standard_raw(s) {
        Ok(v) => Ok(v),
        Err(_) => Err(AuthnError::DecodeError),
    }
}

} // verus!
