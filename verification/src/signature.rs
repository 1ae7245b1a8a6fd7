//! Authentication of inbound webhook events.
//!
//! Every inbound request carries a signature header and a timestamp header.
//! The signature is checked against a keyed digest of a canonical signing
//! string: the fixed version prefix, the timestamp, a colon, and the raw
//! request body.

use vstd::prelude::*;
use vstd::string::StringExecFns;

verus! {

/// The keyed HMAC-SHA256 digest of a message, as a function of the signing
/// key's characters and the message's characters alone.
pub uninterp spec fn hmac_sha256_of(key: Seq<char>, msg: Seq<char>) -> Seq<u8>;

/// The lower-case hex digit for a value below sixteen.
pub open spec fn hex_digit(v: int) -> char {
    if v == 0 {
        '0'
    } else if v == 1 {
        '1'
    } else if v == 2 {
        '2'
    } else if v == 3 {
        '3'
    } else if v == 4 {
        '4'
    } else if v == 5 {
        '5'
    } else if v == 6 {
        '6'
    } else if v == 7 {
        '7'
    } else if v == 8 {
        '8'
    } else if v == 9 {
        '9'
    } else if v == 10 {
        'a'
    } else if v == 11 {
        'b'
    } else if v == 12 {
        'c'
    } else if v == 13 {
        'd'
    } else if v == 14 {
        'e'
    } else {
        'f'
    }
}

/// Lower-case hex encoding: two digits for each byte, in order.
pub open spec fn hex_of(bytes: Seq<u8>) -> Seq<char>
    decreases bytes.len(),
{
    if bytes.len() == 0 {
        Seq::<char>::empty()
    } else {
        seq![hex_digit(bytes.first() as int / 16), hex_digit(bytes.first() as int % 16)] + hex_of(
            bytes.drop_first(),
        )
    }
}

/// The canonical signing string: version prefix, timestamp, colon, raw body.
pub open spec fn signing_payload(timestamp: Seq<char>, body: Seq<char>) -> Seq<char> {
    "v0:"@ + timestamp + ":"@ + body
}

/// The signature a correctly signed request carries: the version marker
/// followed by the hex-encoded keyed digest of the canonical signing string.
pub open spec fn expected_signature(secret: Seq<char>, body: Seq<char>, timestamp: Seq<char>) -> Seq<
    char,
> {
    "v0="@ + hex_of(hmac_sha256_of(secret, signing_payload(timestamp, body)))
}

/// Relies on hmac's `Hmac<Sha256>` (with sha2's `Sha256`): the digest is a
/// function of the key bytes and message bytes alone, and any key length is
/// accepted (`new_from_slice` on an HMAC never fails).
#[verifier::external_body]
fn hmac_sha256(key: &str, msg: &str) -> (r: Vec<u8>)
    ensures
        r@ == hmac_sha256_of(key@, msg@),
{
    let mut mac = <hmac::Hmac<sha2::Sha256> as hmac::KeyInit>::new_from_slice(key.as_bytes())
        .expect("HMAC accepts keys of any length");
    hmac::Mac::update(&mut mac, msg.as_bytes());
    hmac::Mac::finalize(mac).into_bytes().to_vec()
}

/// Relies on hex::encode: lower-case hex, two digits per byte, in order.
#[verifier::external_body]
fn hex_encode(bytes: &[u8]) -> (r: String)
    ensures
        r@ == hex_of(bytes@),
{
    hex::encode(bytes)
}

/// Produce the signature that a correctly signed request with this body and
/// timestamp would carry under the given secret.
pub fn sign(secret: &str, body: &str, timestamp: &str) -> (r: String)
    ensures
        r@ == expected_signature(secret@, body@, timestamp@),
{
    let mut payload = "v0:".to_owned();
    payload.append(timestamp);
    payload.append(":");
    payload.append(body);
    let digest = hmac_sha256(secret, payload.as_str());
    let digest_hex = hex_encode(digest.as_slice());
    let mut out = "v0=".to_owned();
    out.append(digest_hex.as_str());
    out
}

/// Check a supplied signature against the one the secret, raw body and
/// timestamp demand. True exactly on a byte-for-byte match.
pub fn validate_signature(secret: &str, body: &str, signature: &str, timestamp: &str) -> (r: bool)
    ensures
        r == (signature@ == expected_signature(secret@, body@, timestamp@)),
{
    let expected = sign(secret, body, timestamp);
    let supplied = signature.to_owned();
    supplied == expected
}

/// Why an inbound request failed authentication.
#[derive(Clone, Copy, Debug, PartialEq, Eq, Structural)]
pub enum AuthError {
    /// The signature header is absent or empty.
    MissingSignature,
    /// The timestamp header is absent or empty.
    MissingTimestamp,
    /// Both headers are present but the signature does not match.
    InvalidSignature,
}

/// The outcome of the authentication gate: both headers must be present and
/// non-empty, and the signature must match the expected one.
pub open spec fn auth_spec(
    secret: Seq<char>,
    body: Seq<char>,
    signature: Option<Seq<char>>,
    timestamp: Option<Seq<char>>,
) -> Result<(), AuthError> {
    if signature is None || signature.unwrap().len() == 0 {
        Err(AuthError::MissingSignature)
    } else if timestamp is None || timestamp.unwrap().len() == 0 {
        Err(AuthError::MissingTimestamp)
    } else if signature.unwrap() == expected_signature(secret, body, timestamp.unwrap()) {
        Ok(())
    } else {
        Err(AuthError::InvalidSignature)
    }
}

/// The authentication gate that runs before any classification: reject when
/// either header is missing or empty, and otherwise accept exactly when the
/// signature matches.
pub fn authenticate(
    secret: &str,
    body: &str,
    signature: &Option<String>,
    timestamp: &Option<String>,
) -> (r: Result<(), AuthError>)
    ensures
        r == auth_spec(secret@, body@, signature.deep_view(), timestamp.deep_view()),
{
    let sig = match signature {
        Some(s) => s,
        None => { return Err(AuthError::MissingSignature) },
    };
    if sig.as_str().is_empty() {
        return Err(AuthError::MissingSignature);
    }
    let ts = match timestamp {
        Some(t) => t,
        None => { return Err(AuthError::MissingTimestamp) },
    };
    if ts.as_str().is_empty() {
        return Err(AuthError::MissingTimestamp);
    }
    if validate_signature(secret, body, sig.as_str(), ts.as_str()) {
        Ok(())
    } else {
        Err(AuthError::InvalidSignature)
    }
}

/// The plaintext reason a rejected request is answered with.
pub open spec fn reject_reason_spec(e: AuthError) -> Seq<char> {
    match e {
        AuthError::MissingSignature => "X-Slack-Signature header missing; cannot validate message"@,
        AuthError::MissingTimestamp => "X-Slack-Timestamp header missing; cannot validate message"@,
        AuthError::InvalidSignature => "Invalid HMAC-SHA256 Signature."@,
    }
}

/// The plaintext reason reported for an authentication failure.
pub fn reject_reason(e: AuthError) -> (r: String)
    ensures
        r@ == reject_reason_spec(e),
{
    match e {
        AuthError::MissingSignature => {
            "X-Slack-Signature header missing; cannot validate message".to_owned()
        },
        AuthError::MissingTimestamp => {
            "X-Slack-Timestamp header missing; cannot validate message".to_owned()
        },
        AuthError::InvalidSignature => "Invalid HMAC-SHA256 Signature.".to_owned(),
    }
}

/// A request that carries the very signature its secret, body and timestamp
/// demand passes the authentication gate, for every secret and body and
/// every non-empty timestamp (an empty timestamp header is rejected before
/// the signature is ever examined).
pub proof fn lemma_sign_round_trip(secret: Seq<char>, body: Seq<char>, timestamp: Seq<char>)
    requires
        timestamp.len() > 0,
    ensures
        auth_spec(secret, body, Some(expected_signature(secret, body, timestamp)), Some(timestamp))
            == Ok::<(), AuthError>(()),
{
    reveal_strlit("v0=");
    assert(expected_signature(secret, body, timestamp).len() >= 3);
}

} // verus!
