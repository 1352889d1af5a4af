//! The calls into outside crates and std that the protocol relies on.
//!
//! Each function here is trusted: Verus takes its contract as given. Where
//! the outcome is a fixed function of the arguments too long to write out
//! (an encoding, a hash, a signature), it is named by a spec function
//! without a body, and the contract says only what the crate documents.
use ed25519_dalek::Verifier;
use hmac::Mac;
use rand::RngCore;
use sha2::Digest;
use subtle::ConstantTimeEq;
use vstd::prelude::*;
use zeroize::Zeroize;

verus! {

/// The Base64-URL text (no padding) that `base64_url::encode` makes of `b`.
pub uninterp spec fn base64url_of(b: Seq<u8>) -> Seq<char>;

/// What `base64_url::decode` makes of the text `s`.
pub uninterp spec fn base64url_decoded(s: Seq<char>) -> Option<Seq<u8>>;

/// The Base58Check text that `bs58` makes of `b` (payload, then four bytes of
/// double SHA-256 checksum).
pub uninterp spec fn base58check_of(b: Seq<u8>) -> Seq<char>;

/// What `bs58`'s checked decoder makes of the text `s`.
pub uninterp spec fn base58check_decoded(s: Seq<char>) -> Result<Seq<u8>, Base58Failure>;

/// HMAC-SHA-256 of `msg` under `key`.
pub uninterp spec fn hmac_sha256(key: Seq<u8>, msg: Seq<u8>) -> Seq<u8>;

/// SHA-256 of `msg`.
pub uninterp spec fn sha256(msg: Seq<u8>) -> Seq<u8>;

/// Whether `pk` is the compressed form of a point on the Ed25519 curve.
pub uninterp spec fn ed25519_key_valid(pk: Seq<u8>) -> bool;

/// Whether Ed25519 verification accepts `sig` on `msg` under the public key `pk`.
pub uninterp spec fn ed25519_accepts(pk: Seq<u8>, msg: Seq<u8>, sig: Seq<u8>) -> bool;

/// The Ed25519 signature that libsodium makes on `msg` with the secret key `sk`.
pub uninterp spec fn ed25519_signed(sk: Seq<u8>, msg: Seq<u8>) -> Seq<u8>;

/// The public key that libsodium derives from the secret key `sk`.
pub uninterp spec fn ed25519_public_of(sk: Seq<u8>) -> Seq<u8>;

/// The text that `str::to_lowercase` makes of `s`.
pub uninterp spec fn lowercase_of(s: Seq<char>) -> Seq<char>;

/// Why a Base58Check text was refused.
#[derive(Clone, Copy, Debug, PartialEq, Eq, Structural)]
pub enum Base58Failure {
    /// The text decodes, but its checksum does not match its payload.
    Checksum,
    /// The text is not Base58, or too short to hold a checksum.
    Text,
}

/// Whether a signature is in the form that Ed25519 parsing accepts: sixty-four
/// bytes, the last with its three high bits clear.
pub open spec fn ed25519_signature_well_formed(sig: Seq<u8>) -> bool {
    sig.len() == 64 && sig[63] & 0xe0u8 == 0
}

/// Relies on `base64_url::encode`: URL-safe alphabet, no padding.
#[verifier::external_body]
pub(crate) fn encode_base64url(b: &[u8]) -> (r: String)
    ensures
        r@ == base64url_of(b@),
{
    base64_url::encode(b)
}

/// Relies on `base64_url::decode`: the bytes that the text spells, or nothing
/// when it is not Base64-URL; text that `base64_url::encode` made decodes back
/// to the bytes it was made from.
#[verifier::external_body]
pub(crate) fn decode_base64url(s: &str) -> (r: Option<Vec<u8>>)
    ensures
        r is None <==> base64url_decoded(s@) is None,
        r matches Some(v) ==> base64url_decoded(s@) == Some(v@),
        (exists|b: Seq<u8>| #[trigger] base64url_of(b) == s@) ==> r is Some,
        r matches Some(v) ==> forall|b: Seq<u8>| #[trigger] base64url_of(b) == s@ ==> v@ == b,
{
    base64_url::decode(s).ok()
}

/// Relies on `bs58::encode(..).with_check().into_string()`.
#[verifier::external_body]
pub(crate) fn encode_base58check(b: &[u8]) -> (r: String)
    ensures
        r@ == base58check_of(b@),
{
    bs58::encode(b).with_check().into_string()
}

/// Relies on `bs58::decode(..).with_check(None).into_vec()`: the payload, or
/// the reason it was refused; text that the checked encoder made decodes back
/// to the bytes it was made from.
#[verifier::external_body]
pub(crate) fn decode_base58check(s: &str) -> (r: Result<Vec<u8>, Base58Failure>)
    ensures
        r matches Ok(v) ==> (base58check_decoded(s@) matches Ok(w) && w == v@),
        r matches Err(e) ==> (base58check_decoded(s@) matches Err(f) && f == e),
        (exists|b: Seq<u8>| #[trigger] base58check_of(b) == s@) ==> r is Ok,
        r matches Ok(v) ==> forall|b: Seq<u8>| #[trigger] base58check_of(b) == s@ ==> v@ == b,
{
    match bs58::decode(s).with_check(None).into_vec() {
        Ok(v) => Ok(v),
        Err(bs58::decode::Error::InvalidChecksum { .. }) => Err(Base58Failure::Checksum),
        Err(_) => Err(Base58Failure::Text),
    }
}

/// Relies on `hmac::Hmac<sha2::Sha256>`: `new_varkey` accepts a key of any
/// length, and the code is thirty-two bytes.
#[verifier::external_body]
pub(crate) fn hmac_sha256_tag(key: &[u8], msg: &[u8]) -> (r: Vec<u8>)
    ensures
        r@ == hmac_sha256(key@, msg@),
        r@.len() == 32,
{
    match hmac::Hmac::<sha2::Sha256>::new_varkey(key) {
        Ok(mut mac) => {
            mac.input(msg);
            mac.result().code().to_vec()
        },
        Err(_) => Vec::new(),
    }
}

/// Relies on `sha2::Sha256::digest`: thirty-two bytes.
#[verifier::external_body]
pub(crate) fn sha256_digest(msg: &[u8]) -> (r: Vec<u8>)
    ensures
        r@ == sha256(msg@),
        r@.len() == 32,
{
    sha2::Sha256::digest(msg).to_vec()
}

/// Relies on `subtle::ConstantTimeEq` for slices: true exactly when the
/// lengths and all the bytes agree, in time that does not depend on where
/// they differ.
#[verifier::external_body]
pub(crate) fn constant_time_eq(a: &[u8], b: &[u8]) -> (r: bool)
    ensures
        r == (a@ == b@),
{
    bool::from(a.ct_eq(b))
}

/// Relies on `ed25519_dalek::PublicKey::from_bytes`: it accepts thirty-two
/// bytes that decompress to a curve point, and nothing else.
#[verifier::external_body]
pub(crate) fn ed25519_key_parses(pk: &[u8]) -> (r: bool)
    ensures
        r == ed25519_key_valid(pk@),
        pk@.len() != 32 ==> !r,
{
    ed25519_dalek::PublicKey::from_bytes(pk).is_ok()
}

/// Relies on `ed25519::Signature::from_bytes`: sixty-four bytes, the last
/// with its three high bits clear.
#[verifier::external_body]
pub(crate) fn ed25519_signature_parses(sig: &[u8]) -> (r: bool)
    ensures
        r == ed25519_signature_well_formed(sig@),
{
    ed25519_dalek::Signature::from_bytes(sig).is_ok()
}

/// Relies on `Verifier::verify` of `ed25519_dalek::PublicKey`; the key and
/// the signature are parsed as the two functions above do.
#[verifier::external_body]
pub(crate) fn ed25519_verify(pk: &[u8], msg: &[u8], sig: &[u8]) -> (r: bool)
    requires
        ed25519_key_valid(pk@),
        ed25519_signature_well_formed(sig@),
    ensures
        r == ed25519_accepts(pk@, msg@, sig@),
{
    match (ed25519_dalek::PublicKey::from_bytes(pk), ed25519_dalek::Signature::from_bytes(sig)) {
        (Ok(key), Ok(signature)) => key.verify(msg, &signature).is_ok(),
        _ => false,
    }
}

/// Relies on `sodiumoxide::crypto::sign::sign_detached`; `SecretKey::from_slice`
/// accepts exactly sixty-four bytes.
#[verifier::external_body]
pub(crate) fn ed25519_sign(sk: &[u8], msg: &[u8]) -> (r: Vec<u8>)
    requires
        sk@.len() == 64,
    ensures
        r@ == ed25519_signed(sk@, msg@),
        r@.len() == 64,
{
    match sodiumoxide::crypto::sign::SecretKey::from_slice(sk) {
        Some(key) => sodiumoxide::crypto::sign::sign_detached(msg, &key).to_bytes().to_vec(),
        None => Vec::new(),
    }
}

/// Relies on `sodiumoxide::crypto::sign::SecretKey::public_key`: thirty-two
/// bytes.
#[verifier::external_body]
pub(crate) fn ed25519_public_key(sk: &[u8]) -> (r: Vec<u8>)
    requires
        sk@.len() == 64,
    ensures
        r@ == ed25519_public_of(sk@),
        r@.len() == 32,
{
    match sodiumoxide::crypto::sign::SecretKey::from_slice(sk) {
        Some(key) => key.public_key()[..].to_vec(),
        None => Vec::new(),
    }
}

/// Relies on `sodiumoxide::crypto::sign::gen_keypair`: a fresh secret key of
/// sixty-four bytes.
#[verifier::external_body]
pub(crate) fn ed25519_generate_secret_key() -> (r: Vec<u8>)
    ensures
        r@.len() == 64,
{
    let (_, sk) = sodiumoxide::crypto::sign::gen_keypair();
    sk[..].to_vec()
}

/// Relies on `RngCore::try_fill_bytes` of rand's `OsRng`: `n` bytes from the
/// operating system, or nothing when it cannot give them.
#[verifier::external_body]
pub(crate) fn os_random_bytes(n: usize) -> (r: Option<Vec<u8>>)
    ensures
        r matches Some(v) ==> v@.len() == n,
{
    let mut buf = vec![0u8; n];
    match rand::rngs::OsRng.try_fill_bytes(&mut buf) {
        Ok(()) => Some(buf),
        Err(_) => None,
    }
}

/// Relies on `SystemTime::duration_since(UNIX_EPOCH)` of std: whole seconds
/// since the Unix epoch, or nothing when the clock reads before it.
#[verifier::external_body]
pub(crate) fn unix_seconds_now() -> (r: Option<u64>) {
    std::time::SystemTime::now().duration_since(std::time::UNIX_EPOCH).ok().map(|d| d.as_secs())
}

/// Relies on std's `str::to_lowercase`: the result depends on the characters
/// alone.
#[verifier::external_body]
pub(crate) fn to_lowercase(s: &str) -> (r: String)
    ensures
        r@ == lowercase_of(s@),
{
    s.to_lowercase()
}

/// Relies on `Zeroize` for `Vec<u8>`: the bytes and the spare capacity are
/// overwritten with zeros, then the vector is emptied.
#[verifier::external_body]
pub(crate) fn wipe(v: &mut Vec<u8>)
    ensures
        final(v)@.len() == 0,
{
    v.zeroize();
}

} // verus!
