//! Reading claims out of a JWT.
//!
//! Nothing here verifies a signature or trusts a claim. It reads what the
//! issuer said, so an expiry can be anticipated rather than discovered by a
//! failed request, and a token's scope can be reported.
use vstd::prelude::*;

use base64::Engine;
use std::time::{SystemTime, UNIX_EPOCH};

use crate::text;
use crate::text::{chars_of, split_ranges, string_range};

verus! {

/// What `base64`'s URL-safe, unpadded engine decodes `text` to.
pub uninterp spec fn url_safe_no_pad(text: Seq<char>) -> Option<Seq<u8>>;

/// What `base64`'s standard, unpadded engine decodes `text` to.
pub uninterp spec fn standard_no_pad(text: Seq<char>) -> Option<Seq<u8>>;

/// The unsigned integer `serde_json` finds under `name` in the JSON object
/// `bytes` hold: `None` when they are not JSON, not an object, lack `name`,
/// or hold there anything but a non-negative integer that fits a `u64`.
pub uninterp spec fn json_u64_claim(bytes: Seq<u8>, name: Seq<char>) -> Option<u64>;

/// The string `serde_json` finds under `name` in the JSON object `bytes`
/// hold: `None` when they are not JSON, not an object, lack `name`, or hold
/// there anything but a string.
pub uninterp spec fn json_str_claim(bytes: Seq<u8>, name: Seq<char>) -> Option<Seq<char>>;

/// Whether `bytes` hold a JSON object with some value under `name`, by
/// `serde_json`.
pub uninterp spec fn json_has_claim(bytes: Seq<u8>, name: Seq<char>) -> bool;

/// `base64::engine::general_purpose::URL_SAFE_NO_PAD.decode`, `None` on a
/// decode error.
#[verifier::external_body]
fn decode_url_safe(text: &str) -> (r: Option<Vec<u8>>)
    ensures
        match r {
            Some(b) => url_safe_no_pad(text@) == Some(b@),
            None => url_safe_no_pad(text@) is None,
        },
{
    base64::engine::general_purpose::URL_SAFE_NO_PAD.decode(text).ok()
}

/// `base64::engine::general_purpose::STANDARD_NO_PAD.decode`, `None` on a
/// decode error.
#[verifier::external_body]
fn decode_standard(text: &str) -> (r: Option<Vec<u8>>)
    ensures
        match r {
            Some(b) => standard_no_pad(text@) == Some(b@),
            None => standard_no_pad(text@) is None,
        },
{
    base64::engine::general_purpose::STANDARD_NO_PAD.decode(text).ok()
}

/// `serde_json::from_slice::<Value>`, then `Value::get(name)` and
/// `Value::as_u64` on what is there.
#[verifier::external_body]
pub(crate) fn u64_claim(bytes: &[u8], name: &str) -> (r: Option<u64>)
    ensures
        r == json_u64_claim(bytes@, name@),
{
    serde_json::from_slice::<serde_json::Value>(bytes).ok()?.get(name)?.as_u64()
}

/// `serde_json::from_slice::<Value>`, then `Value::get(name)` and
/// `Value::as_str` on what is there.
#[verifier::external_body]
pub(crate) fn str_claim(bytes: &[u8], name: &str) -> (r: Option<String>)
    ensures
        r.deep_view() == json_str_claim(bytes@, name@),
{
    serde_json::from_slice::<serde_json::Value>(bytes).ok()?.get(name)?.as_str().map(str::to_string)
}

/// `serde_json::from_slice::<Value>`, then whether `Value::get(name)` finds
/// anything there at all; false where the bytes are not JSON.
#[verifier::external_body]
pub(crate) fn has_claim(bytes: &[u8], name: &str) -> (r: bool)
    ensures
        r == json_has_claim(bytes@, name@),
{
    serde_json::from_slice::<serde_json::Value>(bytes).map(|v| v.get(name).is_some()).unwrap_or(false)
}

/// The second `.`-separated part of a token, where the payload sits.
pub open spec fn payload_text(token: Seq<char>) -> Option<Seq<char>> {
    let parts = text::split_char(token, '.');
    if parts.len() >= 2 {
        Some(parts[1])
    } else {
        None
    }
}

/// The payload's bytes: URL-safe base64 first, then the standard alphabet.
pub open spec fn payload_bytes(token: Seq<char>) -> Option<Seq<u8>> {
    match payload_text(token) {
        None => None,
        Some(p) => match url_safe_no_pad(p) {
            Some(b) => Some(b),
            None => standard_no_pad(p),
        },
    }
}

/// A JWT's payload, decoded but not parsed; its signature is not checked.
pub fn payload(token: &str) -> (r: Option<Vec<u8>>)
    ensures
        match r {
            Some(b) => payload_bytes(token@) == Some(b@),
            None => payload_bytes(token@) is None,
        },
{
    let v = chars_of(token);
    let parts = split_ranges(&v, '.', 0, v.len());
    assert(v@.subrange(0, v@.len() as int) =~= v@);
    if parts.len() < 2 {
        return None;
    }
    let (a, b) = parts[1];
    let p = string_range(&v, a, b);
    match decode_url_safe(p.as_str()) {
        Some(bytes) => Some(bytes),
        None => decode_standard(p.as_str()),
    }
}

/// Seconds as milliseconds, pinned at `u64::MAX` rather than wrapping.
pub open spec fn ms_of(secs: u64) -> u64 {
    if secs * 1000 > u64::MAX {
        u64::MAX
    } else {
        (secs * 1000) as u64
    }
}

/// An `exp` claim, in seconds, as the milliseconds everything downstream
/// works in.
pub fn exp_to_ms(secs: u64) -> (r: u64)
    ensures
        r == ms_of(secs),
{
    if secs > u64::MAX / 1000 {
        u64::MAX
    } else {
        secs * 1000
    }
}

/// A JSON value, carried through unread.
#[verifier::external_type_specification]
#[verifier::external_body]
pub struct OpaqueJson(serde_json::Value);

/// Whether `serde_json` reads `bytes` as JSON at all.
pub uninterp spec fn json_valid(bytes: Seq<u8>) -> bool;

/// The value `serde_json` reads from `bytes`, where it reads one.
pub uninterp spec fn json_parsed(bytes: Seq<u8>) -> serde_json::Value;

/// `serde_json::from_slice::<serde_json::Value>`: the value read from
/// exactly these bytes, which comes back exactly when they are JSON. On an
/// error, what the decoder said, as text; its wording is not stated.
#[verifier::external_body]
pub(crate) fn json_value(bytes: &[u8]) -> (r: Result<serde_json::Value, String>)
    ensures
        r is Ok <==> json_valid(bytes@),
        r matches Ok(v) ==> v == json_parsed(bytes@),
{
    serde_json::from_slice(bytes).map_err(|e| e.to_string())
}

/// A JWT's payload, signature unverified: nothing when the token has no
/// payload part, or it does not decode, or it is not JSON.
pub fn claims(token: &str) -> (r: Option<serde_json::Value>)
    ensures
        r is Some <==> (payload_bytes(token@) matches Some(b) && json_valid(b)),
        r matches Some(v) ==> (payload_bytes(token@) matches Some(b) && v == json_parsed(b)),
{
    let bytes = payload(token)?;
    json_value(bytes.as_slice()).ok()
}

/// `exp`, in milliseconds. JWTs carry seconds; everything downstream here
/// works in milliseconds, so the conversion happens once.
pub fn expiry_ms(token: &str) -> (r: Option<u64>)
    ensures
        r == (match payload_bytes(token@) {
            None => None,
            Some(b) => match json_u64_claim(b, "exp"@) {
                None => None,
                Some(secs) => Some(ms_of(secs)),
            },
        }),
{
    let bytes = payload(token)?;
    let secs = u64_claim(bytes.as_slice(), "exp")?;
    Some(exp_to_ms(secs))
}

/// A named string claim.
pub fn claim_str(token: &str, name: &str) -> (r: Option<String>)
    ensures
        r.deep_view() == (match payload_bytes(token@) {
            None => None,
            Some(b) => json_str_claim(b, name@),
        }),
{
    let bytes = payload(token)?;
    str_claim(bytes.as_slice(), name)
}

/// Milliseconds since the Unix epoch by the system clock; zero for a clock
/// set before it.
#[verifier::external_body]
pub fn now_ms() -> u64 {
    SystemTime::now().duration_since(UNIX_EPOCH).map(|d| d.as_millis() as u64).unwrap_or(0)
}

/// Seconds since the Unix epoch by the system clock; zero for a clock set
/// before it.
#[verifier::external_body]
pub fn now_secs() -> u64 {
    SystemTime::now().duration_since(UNIX_EPOCH).map(|d| d.as_secs()).unwrap_or(0)
}

/// Whether a credential that lapses at `expires_at_ms` is still good at
/// `now_ms`, with `skew_ms` to spare.
pub open spec fn fresh_at(expires_at_ms: u64, now_ms: u64, skew_ms: u64) -> bool {
    expires_at_ms > (if now_ms + skew_ms > u64::MAX { u64::MAX as int } else { now_ms + skew_ms })
}

/// The same test on given times.
pub fn fresh_by(expires_at_ms: u64, now_ms: u64, skew_ms: u64) -> (r: bool)
    ensures
        r == fresh_at(expires_at_ms, now_ms, skew_ms),
{
    expires_at_ms > now_ms.saturating_add(skew_ms)
}

/// Is a credential still good, allowing `skew_ms` milliseconds for the
/// request it is about to authorise?
///
/// The margin is the point: a token that expires during the request it
/// authorises fails in a way that reads as "wrong credentials". The clock is
/// read here, so the answer is `fresh_at` of some reading of it with this
/// very margin; whatever the reading, a credential that lapses no later than
/// `skew_ms` is never fresh.
pub fn fresh(expires_at_ms: u64, skew_ms: u64) -> (r: bool)
    ensures
        exists|now: u64| r == #[trigger] fresh_at(expires_at_ms, now, skew_ms),
        r ==> expires_at_ms > skew_ms,
{
    let now = now_ms();
    fresh_by(expires_at_ms, now, skew_ms)
}

} // verus!
