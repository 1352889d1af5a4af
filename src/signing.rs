//! The client side: signing a challenge with an Ed25519 key and naming the
//! key by its address.
use crate::address::{address_of, encode_address};
use crate::challenge::{payload_of, CHALLENGE_LEN, PAYLOAD_LEN};
use crate::digest::{build_digest, digest_of};
use crate::primitives::{
    base58check_decoded, base58check_of, base64url_decoded, base64url_of, decode_base58check,
    decode_base64url, ed25519_generate_secret_key, ed25519_public_key, ed25519_public_of,
    ed25519_sign, ed25519_signed, encode_base58check, encode_base64url, wipe,
};
use vstd::prelude::*;

verus! {

/// The length of an Ed25519 secret key as libsodium keeps it (seed, then
/// public key), in bytes.
pub const SECRET_KEY_LEN: usize = 64;

/// A signed response to a challenge, ready to be sent to the verifier.
#[derive(Debug)]
pub struct SignedChallenge {
    /// The address of the signing key.
    pub address: String,
    /// The challenge token, as it was given.
    pub challenge: String,
    /// The Base64-URL signature on the challenge's digest.
    pub signature: String,
    /// The Base58Check secret key, only when it was generated for this
    /// response and so exists nowhere else.
    pub secret_key: Option<String>,
}

/// Why a challenge could not be signed.
#[derive(Clone, Copy, Debug, PartialEq, Eq, Structural)]
pub enum SigningError {
    /// The token is not Base64-URL, or not the length of a challenge.
    BadChallenge,
    /// The secret key does not decode, or has the wrong length.
    BadKey,
}

/// The challenge bytes of `token`, when it is the encoding of a challenge.
pub open spec fn challenge_of_token(token: Seq<char>) -> Option<Seq<u8>> {
    match base64url_decoded(token) {
        Some(c) => if c.len() == CHALLENGE_LEN {
            Some(c)
        } else {
            None
        },
        None => None,
    }
}

/// Whether `sc` answers the challenge `c`, given as `token`, with the key `sk`.
pub open spec fn answers(sc: SignedChallenge, token: Seq<char>, c: Seq<u8>, sk: Seq<u8>) -> bool {
    &&& sc.address@ == address_of(ed25519_public_of(sk))
    &&& sc.challenge@ == token
    &&& sc.signature@ == base64url_of(ed25519_signed(sk, digest_of(payload_of(c))))
}

/// Signs the challenge `token` with the secret key `secret_key`.
pub fn sign_challenge_with_key(token: &str, secret_key: &[u8]) -> (r: Result<
    SignedChallenge,
    SigningError,
>)
    ensures
        r is Ok <==> (challenge_of_token(token@) is Some && secret_key@.len() == SECRET_KEY_LEN),
        r matches Err(e) ==> e == (if challenge_of_token(token@) is None {
            SigningError::BadChallenge
        } else {
            SigningError::BadKey
        }),
        r matches Ok(sc) ==> (challenge_of_token(token@) matches Some(c) && answers(
            sc,
            token@,
            c,
            secret_key@,
        ) && sc.secret_key is None),
        forall|c: Seq<u8>|
            c.len() == CHALLENGE_LEN && #[trigger] base64url_of(c) == token@ && secret_key@.len()
                == SECRET_KEY_LEN ==> (r matches Ok(sc) && answers(sc, token@, c, secret_key@)),
{
    let challenge = match decode_base64url(token) {
        Some(c) => c,
        None => return Err(SigningError::BadChallenge),
    };
    if challenge.len() != CHALLENGE_LEN {
        return Err(SigningError::BadChallenge);
    }
    if secret_key.len() != SECRET_KEY_LEN {
        return Err(SigningError::BadKey);
    }
    let digest = build_digest(&challenge[0..PAYLOAD_LEN]);
    let signature = ed25519_sign(secret_key, digest.as_slice());
    let public_key = ed25519_public_key(secret_key);
    Ok(
        SignedChallenge {
            address: encode_address(public_key.as_slice()),
            challenge: String::from_str(token),
            signature: encode_base64url(signature.as_slice()),
            secret_key: None,
        },
    )
}

/// Signs the challenge `token` with the Base58Check secret key `encoded_key`,
/// or with a freshly generated key when none is given; a generated key is
/// returned with the response, since it exists nowhere else. The decoded key
/// is wiped from memory before returning.
pub fn sign_challenge(token: &str, encoded_key: Option<&str>) -> (r: Result<
    SignedChallenge,
    SigningError,
>)
    ensures
        encoded_key matches Some(k) ==> match base58check_decoded(k@) {
            Err(_) => r == Err::<SignedChallenge, SigningError>(SigningError::BadKey),
            Ok(sk) => {
                &&& r is Ok <==> (challenge_of_token(token@) is Some && sk.len()
                    == SECRET_KEY_LEN)
                &&& r matches Err(e) ==> e == (if challenge_of_token(token@) is None {
                    SigningError::BadChallenge
                } else {
                    SigningError::BadKey
                })
                &&& r matches Ok(sc) ==> (challenge_of_token(token@) matches Some(c) && answers(
                    sc,
                    token@,
                    c,
                    sk,
                ) && sc.secret_key is None)
            },
        },
        encoded_key is None ==> {
            &&& r is Ok <==> challenge_of_token(token@) is Some
            &&& r matches Err(e) ==> e == SigningError::BadChallenge
            &&& r matches Ok(sc) ==> (challenge_of_token(token@) matches Some(c) && exists|
                sk: Seq<u8>,
            |
                sk.len() == SECRET_KEY_LEN && #[trigger] answers(sc, token@, c, sk) && (
                sc.secret_key matches Some(k) && k@ == base58check_of(sk)))
        },
{
    match encoded_key {
        Some(k) => {
            let mut sk = match decode_base58check(k) {
                Ok(sk) => sk,
                Err(_) => return Err(SigningError::BadKey),
            };
            let r = sign_challenge_with_key(token, sk.as_slice());
            wipe(&mut sk);
            r
        },
        None => {
            let mut sk = ed25519_generate_secret_key();
            let ghost key = sk@;
            let r = match sign_challenge_with_key(token, sk.as_slice()) {
                Ok(sc) => {
                    let shown = encode_base58check(sk.as_slice());
                    let answer = SignedChallenge { secret_key: Some(shown), ..sc };
                    assert(answers(answer, token@, challenge_of_token(token@)->Some_0, key));
                    Ok(answer)
                },
                Err(e) => Err(e),
            };
            wipe(&mut sk);
            r
        },
    }
}

} // verus!
