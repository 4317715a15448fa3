//! Webhook request signing: millisecond timestamps and the HMAC-based
//! signature appended to signed webhook URLs.
//!
//! The signature input is exactly `"{timestamp}\n{secret}"`, keyed by the
//! secret; the tag is base64-encoded and then percent-encoded so it can sit
//! in a query string.  The HMAC and base64 steps are outside calls whose
//! results are named; everything around them is verified, so the final
//! string is pinned down as a function of timestamp and secret.

use vstd::prelude::*;
use vstd::utf8::{encode_utf8, is_ascii_chars};

use hmac::Mac;

use crate::encode::{
    lemma_unreserved_enc_ascii, push_dec_u64, push_unreserved_enc, spec_dec_bytes,
    spec_unreserved_enc,
};
use crate::error::{Error, Result};
use crate::text::{lemma_ascii_valid_utf8, string_from_utf8};

verus! {

/// The HMAC-SHA-256 tag over the UTF-8 bytes of a message, keyed by the
/// UTF-8 bytes of a key.
pub uninterp spec fn hmac_sha256_of(key: Seq<char>, msg: Seq<char>) -> Seq<u8>;

/// The base64 encoding of a byte sequence under the standard alphabet with
/// padding.
pub uninterp spec fn base64_std_of(bytes: Seq<u8>) -> Seq<char>;

/// Relies on `Hmac::<Sha256>` of the hmac and sha2 crates: the tag depends
/// on key and message alone and is 32 bytes long; `None` when the key
/// material is rejected.
#[verifier::external_body]
fn hmac_sha256(key: &str, msg: &str) -> (r: Option<Vec<u8>>)
    ensures
        r matches Some(v) ==> v@ == hmac_sha256_of(key@, msg@) && v@.len() == 32,
{
    let mut mac = match hmac::Hmac::<sha2::Sha256>::new_from_slice(key.as_bytes()) {
        Ok(mac) => mac,
        Err(_) => {
            return None;
        },
    };
    mac.update(msg.as_bytes());
    Some(mac.finalize().into_bytes().to_vec())
}

/// Relies on the base64 crate's standard-alphabet engine: the encoding
/// depends on the bytes alone and is made of ASCII characters.
#[verifier::external_body]
fn base64_encode(bytes: &Vec<u8>) -> (r: String)
    ensures
        r@ == base64_std_of(bytes@),
        is_ascii_chars(r@),
{
    base64::Engine::encode(&base64::engine::general_purpose::STANDARD, bytes)
}

/// Relies on `SystemTime::now` and `duration_since`: milliseconds since the
/// epoch, or `None` when the clock reads before the epoch or out of range.
#[verifier::external_body]
pub(crate) fn clock_now_millis() -> (r: Option<u64>)
{
    match std::time::SystemTime::now().duration_since(std::time::UNIX_EPOCH) {
        Ok(d) => u64::try_from(d.as_millis()).ok(),
        Err(_) => None,
    }
}

/// The decimal digit characters of a number, most significant first: the
/// characters whose UTF-8 encoding is the decimal digit bytes.
pub open spec fn spec_dec_chars(n: nat) -> Seq<char> {
    vstd::utf8::decode_utf8(spec_dec_bytes(n))
}

/// Renders a number in decimal.
pub fn format_u64(n: u64) -> (r: String)
    ensures
        r@ == spec_dec_chars(n as nat),
        encode_utf8(r@) == spec_dec_bytes(n as nat),
{
    let mut out: Vec<u8> = Vec::new();
    push_dec_u64(&mut out, n);
    proof {
        crate::encode::lemma_dec_bytes_ascii(n as nat);
        lemma_ascii_valid_utf8(out@);
    }
    let r = string_from_utf8(out);
    proof {
        vstd::utf8::encode_utf8_decode_utf8(r@);
    }
    r
}

/// Produces the current time as a millisecond timestamp in decimal, or a
/// Timestamp error when the system clock reads before the epoch.
pub fn current_timestamp_millis() -> (r: Result<String>)
    ensures
        r matches Ok(s) ==> exists|n: nat| s@ == spec_dec_chars(n),
        r matches Err(e) ==> e == Error::Timestamp,
{
    match clock_now_millis() {
        Some(now) => {
            let s = format_u64(now);
            proof {
                assert(s@ == spec_dec_chars(now as nat));
            }
            Ok(s)
        },
        None => Err(Error::Timestamp),
    }
}

/// The percent-encoded base64 rendering of an HMAC tag.
pub open spec fn spec_encoded_tag(tag: Seq<u8>) -> Seq<u8> {
    spec_unreserved_enc(encode_utf8(base64_std_of(tag)))
}

/// The signature string owed for a timestamp and secret: the HMAC tag over
/// `"{timestamp}\n{secret}"` keyed by the secret, base64-encoded, then
/// percent-encoded.
pub open spec fn spec_signature_of(timestamp: Seq<char>, secret: Seq<char>) -> Seq<u8> {
    spec_encoded_tag(hmac_sha256_of(secret, timestamp + seq!['\n'] + secret))
}

/// Encodes an HMAC tag for query-string embedding: base64 under the
/// standard alphabet, then percent-encoding of everything outside the
/// unreserved set.
pub fn encode_signature_tag(tag: &Vec<u8>) -> (r: String)
    ensures
        encode_utf8(r@) == spec_encoded_tag(tag@),
{
    let b64 = base64_encode(tag);
    let mut out: Vec<u8> = Vec::new();
    push_unreserved_enc(&mut out, b64.as_str().as_bytes());
    proof {
        lemma_unreserved_enc_ascii(encode_utf8(b64@));
        lemma_ascii_valid_utf8(out@);
    }
    string_from_utf8(out)
}

/// Produces the webhook signature for a timestamp and secret.  Fails with a
/// Signature error only when the HMAC key material is rejected.
pub fn create_signature(timestamp: &str, secret: &str) -> (r: Result<String>)
    ensures
        r matches Ok(s) ==> encode_utf8(s@) == spec_signature_of(timestamp@, secret@),
        r matches Err(e) ==> e == Error::Signature,
{
    let mut string_to_sign = timestamp.to_owned();
    string_to_sign.append("\n");
    string_to_sign.append(secret);
    proof {
        reveal_strlit("\n");
        assert(("\n")@ =~= seq!['\n']);
    }
    match hmac_sha256(secret, string_to_sign.as_str()) {
        Some(tag) => Ok(encode_signature_tag(&tag)),
        None => Err(Error::Signature),
    }
}

} // verus!
