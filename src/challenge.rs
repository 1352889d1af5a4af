//! Issuing challenges and verifying signed responses to them.
//!
//! A challenge is `timestamp (8 bytes, big-endian) ‖ nonce (32 bytes) ‖ tag
//! (32 bytes)`, where the tag is HMAC-SHA-256 of the first forty bytes under
//! the server secret; it travels Base64-URL encoded. Nothing is stored between
//! issuing and verifying: the challenge carries all that is checked.
//!
//! Verification checks, in this order: the token decodes to a challenge of
//! the right length, its tag matches (compared in constant time), it is not
//! older than `EXPIRY_WINDOW`, the signature is well formed, the address names
//! a public key, and the signature verifies on the digest of the challenge's
//! first forty bytes. The tag is checked before the freshness, so a forged
//! challenge never learns whether it would have been fresh.
use crate::address::{address_decoded, decode_address, AddressError};
use crate::bytes::{be_bytes_of, be_value, lemma_be_round_trip, u64_from_be_bytes, u64_to_be_bytes};
use crate::digest::{build_digest, digest_of};
use crate::primitives::{
    base64url_decoded, base64url_of, constant_time_eq, decode_base64url, ed25519_accepts,
    ed25519_key_parses, ed25519_key_valid, ed25519_signature_parses,
    ed25519_signature_well_formed, ed25519_verify, encode_base64url, hmac_sha256, hmac_sha256_tag,
    os_random_bytes, unix_seconds_now,
};
use vstd::prelude::*;

verus! {

/// Bytes of the timestamp at the start of a challenge.
pub const TIMESTAMP_LEN: usize = 8;

/// Bytes of random nonce after the timestamp.
pub const NONCE_LEN: usize = 32;

/// Bytes of the part that is tagged and signed: timestamp and nonce.
pub const PAYLOAD_LEN: usize = 40;

/// Bytes of the integrity tag at the end of a challenge.
pub const TAG_LEN: usize = 32;

/// Bytes of a whole challenge.
pub const CHALLENGE_LEN: usize = 72;

/// Seconds during which an issued challenge is accepted.
pub const EXPIRY_WINDOW: u64 = 3600;

/// The outcome of verifying a response to a challenge.
#[derive(Clone, Copy, Debug, PartialEq, Eq, Structural)]
pub enum VerificationResult {
    /// The challenge is authentic but older than the expiry window.
    Expired,
    /// Something did not decode, had the wrong length, or the tag did not match.
    Malformed,
    /// Everything was well formed; the flag says whether the signature verified.
    Valid(bool),
}

/// The timestamp and nonce of a challenge: what is tagged and signed.
pub open spec fn payload_of(c: Seq<u8>) -> Seq<u8> {
    c.subrange(0, PAYLOAD_LEN as int)
}

/// The integrity tag of a challenge.
pub open spec fn tag_of(c: Seq<u8>) -> Seq<u8> {
    c.subrange(PAYLOAD_LEN as int, CHALLENGE_LEN as int)
}

/// The time, in seconds since the Unix epoch, at which a challenge was issued.
pub open spec fn timestamp_of(c: Seq<u8>) -> u64 {
    be_value(c)
}

/// The challenge that the issuer makes at time `now` with `nonce`.
pub open spec fn issued_bytes(secret: Seq<u8>, now: u64, nonce: Seq<u8>) -> Seq<u8> {
    be_bytes_of(now) + nonce + hmac_sha256(secret, be_bytes_of(now) + nonce)
}

/// Whether `c` has a challenge's length and carries the right tag under `secret`.
pub open spec fn well_tagged(c: Seq<u8>, secret: Seq<u8>) -> bool {
    c.len() == CHALLENGE_LEN && tag_of(c) == hmac_sha256(secret, payload_of(c))
}

/// Whether a challenge issued at `timestamp` is too old at `now`.
pub open spec fn is_stale(timestamp: u64, now: u64) -> bool {
    now as int - timestamp as int > EXPIRY_WINDOW as int
}

/// What the challenge bytes alone decide: `Malformed` for a wrong length or
/// tag, else `Expired` for a stale one, else nothing (it passes).
pub open spec fn challenge_check(c: Seq<u8>, secret: Seq<u8>, now: u64) -> Option<
    VerificationResult,
> {
    if !well_tagged(c, secret) {
        Some(VerificationResult::Malformed)
    } else if is_stale(timestamp_of(c), now) {
        Some(VerificationResult::Expired)
    } else {
        None
    }
}

/// The outcome for a signature `sig` on `payload` by the key that `address` names.
pub open spec fn signature_verdict(
    payload: Seq<u8>,
    sig: Seq<u8>,
    address: Seq<char>,
) -> VerificationResult {
    if !ed25519_signature_well_formed(sig) {
        VerificationResult::Malformed
    } else {
        match address_decoded(address) {
            Err(_) => VerificationResult::Malformed,
            Ok(pk) => if !ed25519_key_valid(pk) {
                VerificationResult::Malformed
            } else {
                VerificationResult::Valid(ed25519_accepts(pk, digest_of(payload), sig))
            },
        }
    }
}

/// The outcome for challenge bytes `c` and signature bytes `sig`.
pub open spec fn decoded_verdict(
    c: Seq<u8>,
    sig: Seq<u8>,
    address: Seq<char>,
    secret: Seq<u8>,
    now: u64,
) -> VerificationResult {
    match challenge_check(c, secret, now) {
        Some(v) => v,
        None => signature_verdict(payload_of(c), sig, address),
    }
}

/// The outcome for an encoded challenge and an encoded signature.
pub open spec fn response_verdict(
    challenge: Seq<char>,
    signature: Seq<char>,
    address: Seq<char>,
    secret: Seq<u8>,
    now: u64,
) -> VerificationResult {
    match base64url_decoded(challenge) {
        None => VerificationResult::Malformed,
        Some(c) => match challenge_check(c, secret, now) {
            Some(v) => v,
            None => match base64url_decoded(signature) {
                None => VerificationResult::Malformed,
                Some(sig) => signature_verdict(payload_of(c), sig, address),
            },
        },
    }
}

/// The challenge bytes for time `now` and `nonce`, tagged under `server_secret`.
pub fn challenge_bytes(server_secret: &[u8], now: u64, nonce: &[u8]) -> (r: Vec<u8>)
    requires
        nonce@.len() == NONCE_LEN,
    ensures
        r@ == issued_bytes(server_secret@, now, nonce@),
        well_tagged(r@, server_secret@),
        timestamp_of(r@) == now,
{
    let mut r = u64_to_be_bytes(now);
    r.extend_from_slice(nonce);
    let tag = hmac_sha256_tag(server_secret, r.as_slice());
    let ghost payload = r@;
    assert(payload =~= be_bytes_of(now) + nonce@);
    r.extend_from_slice(tag.as_slice());
    proof {
        lemma_be_round_trip(now);
        assert(payload_of(r@) =~= payload);
        assert(tag_of(r@) =~= tag@);
        assert(r@ =~= issued_bytes(server_secret@, now, nonce@));
        let b = be_bytes_of(now);
        assert(r@[0] == b[0] && r@[1] == b[1] && r@[2] == b[2] && r@[3] == b[3]);
        assert(r@[4] == b[4] && r@[5] == b[5] && r@[6] == b[6] && r@[7] == b[7]);
    }
    r
}

/// The encoded challenge issued at time `now` with `nonce`.
pub fn issue_challenge_at(server_secret: &[u8], now: u64, nonce: &[u8]) -> (r: String)
    requires
        nonce@.len() == NONCE_LEN,
    ensures
        r@ == base64url_of(issued_bytes(server_secret@, now, nonce@)),
        well_tagged(issued_bytes(server_secret@, now, nonce@), server_secret@),
        timestamp_of(issued_bytes(server_secret@, now, nonce@)) == now,
{
    let bytes = challenge_bytes(server_secret, now, nonce);
    encode_base64url(bytes.as_slice())
}

/// A fresh encoded challenge, stamped with the current time and a nonce from
/// the operating system; nothing when the clock reads before the Unix epoch
/// or the operating system gives no random bytes.
pub fn issue_challenge(server_secret: &[u8]) -> (r: Option<String>)
    ensures
        r matches Some(token) ==> exists|now: u64, nonce: Seq<u8>|
            nonce.len() == NONCE_LEN && token@ == base64url_of(
                #[trigger] issued_bytes(server_secret@, now, nonce),
            ),
{
    let now = match unix_seconds_now() {
        Some(t) => t,
        None => return None,
    };
    let nonce = match os_random_bytes(NONCE_LEN) {
        Some(n) => n,
        None => return None,
    };
    let token = issue_challenge_at(server_secret, now, nonce.as_slice());
    Some(token)
}

/// Whether a challenge issued at `timestamp` is too old at `now`.
pub fn is_expired(timestamp: u64, now: u64) -> (r: bool)
    ensures
        r == is_stale(timestamp, now),
{
    now > timestamp && now - timestamp > EXPIRY_WINDOW
}

/// Checks the length and tag of decoded challenge bytes, then their freshness.
pub fn check_challenge(challenge: &[u8], server_secret: &[u8], now: u64) -> (r: Option<
    VerificationResult,
>)
    ensures
        r == challenge_check(challenge@, server_secret@, now),
{
    if challenge.len() != CHALLENGE_LEN {
        return Some(VerificationResult::Malformed);
    }
    let expected = hmac_sha256_tag(server_secret, &challenge[0..PAYLOAD_LEN]);
    if !constant_time_eq(expected.as_slice(), &challenge[PAYLOAD_LEN..CHALLENGE_LEN]) {
        return Some(VerificationResult::Malformed);
    }
    let timestamp = u64_from_be_bytes(challenge);
    if is_expired(timestamp, now) {
        Some(VerificationResult::Expired)
    } else {
        None
    }
}

/// Checks `signature` on the digest of `payload` against the key that
/// `address` names.
pub fn check_signature(payload: &[u8], signature: &[u8], address: &str) -> (r: VerificationResult)
    ensures
        r == signature_verdict(payload@, signature@, address@),
{
    if !ed25519_signature_parses(signature) {
        return VerificationResult::Malformed;
    }
    let public_key = match decode_address(address) {
        Ok(pk) => pk,
        Err(_) => return VerificationResult::Malformed,
    };
    if !ed25519_key_parses(public_key.as_slice()) {
        return VerificationResult::Malformed;
    }
    let digest = build_digest(payload);
    VerificationResult::Valid(ed25519_verify(public_key.as_slice(), digest.as_slice(), signature))
}

/// Verifies a response whose challenge and signature are already decoded.
pub fn verify_decoded(
    challenge: &[u8],
    signature: &[u8],
    address: &str,
    server_secret: &[u8],
    now: u64,
) -> (r: VerificationResult)
    ensures
        r == decoded_verdict(challenge@, signature@, address@, server_secret@, now),
{
    match check_challenge(challenge, server_secret, now) {
        Some(v) => v,
        None => check_signature(&challenge[0..PAYLOAD_LEN], signature, address),
    }
}

/// Verifies a response at time `now`: the encoded challenge, the encoded
/// signature on it and the address of the key that signed.
///
/// Tokens that the encoder made of challenge and signature bytes are judged
/// on those bytes.
pub fn verify_response_at(
    encoded_challenge: &str,
    encoded_signature: &str,
    address: &str,
    server_secret: &[u8],
    now: u64,
) -> (r: VerificationResult)
    ensures
        r == response_verdict(
            encoded_challenge@,
            encoded_signature@,
            address@,
            server_secret@,
            now,
        ),
        forall|c: Seq<u8>, s: Seq<u8>|
            #[trigger] base64url_of(c) == encoded_challenge@ && #[trigger] base64url_of(s)
                == encoded_signature@ ==> r == decoded_verdict(
                c,
                s,
                address@,
                server_secret@,
                now,
            ),
{
    let challenge = match decode_base64url(encoded_challenge) {
        Some(c) => c,
        None => return VerificationResult::Malformed,
    };
    match check_challenge(challenge.as_slice(), server_secret, now) {
        Some(v) => v,
        None => match decode_base64url(encoded_signature) {
            None => VerificationResult::Malformed,
            Some(sig) => check_signature(&challenge[0..PAYLOAD_LEN], sig.as_slice(), address),
        },
    }
}

/// Verifies a response against the current time. A clock that reads before
/// the Unix epoch cannot vouch for freshness: every authentic challenge then
/// counts as expired.
pub fn verify_response(
    encoded_challenge: &str,
    encoded_signature: &str,
    address: &str,
    server_secret: &[u8],
) -> (r: VerificationResult)
    ensures
        exists|now: u64|
            r == #[trigger] response_verdict(
                encoded_challenge@,
                encoded_signature@,
                address@,
                server_secret@,
                now,
            ),
{
    let now = match unix_seconds_now() {
        Some(t) => t,
        None => u64::MAX,
    };
    verify_response_at(encoded_challenge, encoded_signature, address, server_secret, now)
}

/// A challenge that the issuer made, answered within the expiry window with a
/// signature that verifies under the key that the address names, is accepted.
pub proof fn lemma_issued_and_signed_is_valid(
    c: Seq<u8>,
    sig: Seq<u8>,
    address: Seq<char>,
    pk: Seq<u8>,
    secret: Seq<u8>,
    now: u64,
)
    requires
        well_tagged(c, secret),
        !is_stale(timestamp_of(c), now),
        address_decoded(address) == Ok::<Seq<u8>, AddressError>(pk),
        ed25519_key_valid(pk),
        ed25519_signature_well_formed(sig),
        ed25519_accepts(pk, digest_of(payload_of(c)), sig),
    ensures
        decoded_verdict(c, sig, address, secret, now) == VerificationResult::Valid(true),
{
}

/// Flipping any one bit of the tag of an authentic challenge makes it
/// `Malformed`, whatever the signature, the address and the time.
pub proof fn lemma_flipped_tag_bit_is_malformed(
    c: Seq<u8>,
    secret: Seq<u8>,
    i: int,
    bit: u8,
    sig: Seq<u8>,
    address: Seq<char>,
    now: u64,
)
    requires
        well_tagged(c, secret),
        PAYLOAD_LEN <= i < CHALLENGE_LEN,
        bit < 8,
    ensures
        challenge_check(c.update(i, c[i] ^ (1u8 << bit)), secret, now) == Some(
            VerificationResult::Malformed,
        ),
        decoded_verdict(c.update(i, c[i] ^ (1u8 << bit)), sig, address, secret, now)
            == VerificationResult::Malformed,
{
    let old_byte = c[i];
    assert(old_byte ^ (1u8 << bit) != old_byte) by (bit_vector)
        requires
            bit < 8,
    ;
    let flipped = c.update(i, c[i] ^ (1u8 << bit));
    assert(payload_of(flipped) =~= payload_of(c));
    assert(tag_of(flipped)[i - PAYLOAD_LEN] != tag_of(c)[i - PAYLOAD_LEN]);
}

/// An authentic challenge one second past the expiry window is `Expired`.
pub proof fn lemma_past_window_is_expired(
    c: Seq<u8>,
    sig: Seq<u8>,
    address: Seq<char>,
    secret: Seq<u8>,
    now: u64,
)
    requires
        well_tagged(c, secret),
        now as int == timestamp_of(c) as int + EXPIRY_WINDOW as int + 1,
    ensures
        decoded_verdict(c, sig, address, secret, now) == VerificationResult::Expired,
{
}

/// An authentic challenge exactly at the end of the expiry window is not
/// `Expired`: the window includes its last second.
pub proof fn lemma_window_end_is_not_expired(
    c: Seq<u8>,
    sig: Seq<u8>,
    address: Seq<char>,
    secret: Seq<u8>,
    now: u64,
)
    requires
        well_tagged(c, secret),
        now as int == timestamp_of(c) as int + EXPIRY_WINDOW as int,
    ensures
        decoded_verdict(c, sig, address, secret, now) != VerificationResult::Expired,
{
}

/// A well-formed signature that does not verify under the key that the
/// address names (one made with another key pair) yields `Valid(false)`, not
/// an error.
pub proof fn lemma_foreign_signature_is_invalid(
    c: Seq<u8>,
    sig: Seq<u8>,
    address: Seq<char>,
    pk: Seq<u8>,
    secret: Seq<u8>,
    now: u64,
)
    requires
        well_tagged(c, secret),
        !is_stale(timestamp_of(c), now),
        address_decoded(address) == Ok::<Seq<u8>, AddressError>(pk),
        ed25519_key_valid(pk),
        ed25519_signature_well_formed(sig),
        !ed25519_accepts(pk, digest_of(payload_of(c)), sig),
    ensures
        decoded_verdict(c, sig, address, secret, now) == VerificationResult::Valid(false),
{
}

} // verus!
