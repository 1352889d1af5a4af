//! Payment addresses: a fixed prefix followed by the Base58Check form of an
//! Ed25519 public key.
use crate::primitives::{
    base58check_decoded, base58check_of, decode_base58check, encode_base58check, Base58Failure,
};
use vstd::prelude::*;

verus! {

/// The literal that starts every address of this scheme and network.
pub const ADDRESS_PREFIX: &'static str = "pay:sov:";

/// The length of an Ed25519 public key, in bytes.
pub const PUBLIC_KEY_LEN: usize = 32;

/// Why an address does not name a public key.
#[derive(Clone, Copy, Debug, PartialEq, Eq, Structural)]
pub enum AddressError {
    /// The address does not start with the scheme's prefix.
    UnknownPrefix,
    /// The Base58Check checksum does not match the payload.
    ChecksumMismatch,
    /// The text after the prefix is not Base58Check.
    Malformed,
    /// The payload is not thirty-two bytes long.
    WrongLength,
}

/// The characters of `ADDRESS_PREFIX`.
pub open spec fn address_prefix() -> Seq<char> {
    seq!['p', 'a', 'y', ':', 's', 'o', 'v', ':']
}

/// The address of the public key `pk`.
pub open spec fn address_of(pk: Seq<u8>) -> Seq<char> {
    address_prefix() + base58check_of(pk)
}

/// What the address `a` decodes to: its public key, or why it has none.
pub open spec fn address_decoded(a: Seq<char>) -> Result<Seq<u8>, AddressError> {
    if a.len() < 8 || a.subrange(0, 8) != address_prefix() {
        Err(AddressError::UnknownPrefix)
    } else {
        match base58check_decoded(a.subrange(8, a.len() as int)) {
            Err(Base58Failure::Checksum) => Err(AddressError::ChecksumMismatch),
            Err(Base58Failure::Text) => Err(AddressError::Malformed),
            Ok(pk) => if pk.len() == PUBLIC_KEY_LEN {
                Ok(pk)
            } else {
                Err(AddressError::WrongLength)
            },
        }
    }
}

proof fn lemma_prefix_chars()
    ensures
        ADDRESS_PREFIX@ == address_prefix(),
{
    reveal_strlit("pay:sov:");
    assert(ADDRESS_PREFIX@ =~= address_prefix());
}

/// The address of `public_key`: the prefix, then its Base58Check form.
pub fn encode_address(public_key: &[u8]) -> (r: String)
    ensures
        r@ == address_of(public_key@),
{
    proof {
        lemma_prefix_chars();
    }
    let mut r = String::from_str(ADDRESS_PREFIX);
    let encoded = encode_base58check(public_key);
    r.append(encoded.as_str());
    r
}

/// The public key that `address` names.
///
/// Every address that `encode_address` makes of a thirty-two-byte key decodes
/// to that key.
pub fn decode_address(address: &str) -> (r: Result<Vec<u8>, AddressError>)
    ensures
        r matches Ok(v) ==> (address_decoded(address@) matches Ok(pk) && pk == v@),
        r matches Err(e) ==> (address_decoded(address@) matches Err(f) && f == e),
        forall|pk: Seq<u8>|
            pk.len() == PUBLIC_KEY_LEN && #[trigger] address_of(pk) == address@ ==> (r matches Ok(
                v,
            ) && v@ == pk),
{
    proof {
        lemma_prefix_chars();
    }
    let n = address.unicode_len();
    if n < 8 {
        return Err(AddressError::UnknownPrefix);
    }
    let mut i: usize = 0;
    while i < 8
        invariant
            i <= 8 <= n,
            n == address@.len(),
            ADDRESS_PREFIX@ == address_prefix(),
            forall|j: int| 0 <= j < i ==> address@[j] == address_prefix()[j],
        decreases 8 - i,
    {
        if address.get_char(i) != ADDRESS_PREFIX.get_char(i) {
            assert(address@.subrange(0, 8)[i as int] != address_prefix()[i as int]);
            return Err(AddressError::UnknownPrefix);
        }
        i = i + 1;
    }
    assert(address@.subrange(0, 8) =~= address_prefix());
    let rest = address.substring_char(8, n);
    proof {
        assert forall|pk: Seq<u8>| #[trigger] address_of(pk) == address@ implies base58check_of(pk)
            == rest@ by {
            assert(rest@ =~= address_of(pk).subrange(8, address_of(pk).len() as int));
        }
    }
    match decode_base58check(rest) {
        Err(Base58Failure::Checksum) => Err(AddressError::ChecksumMismatch),
        Err(Base58Failure::Text) => Err(AddressError::Malformed),
        Ok(v) => {
            if v.len() == PUBLIC_KEY_LEN {
                Ok(v)
            } else {
                Err(AddressError::WrongLength)
            }
        },
    }
}

/// Changing any one character of an address's prefix makes the address
/// undecodable, whatever the key.
pub proof fn lemma_prefix_mutation_refused(pk: Seq<u8>, i: int, c: char)
    requires
        0 <= i < 8,
        c != address_of(pk)[i],
    ensures
        address_decoded(address_of(pk).update(i, c)) == Err::<Seq<u8>, AddressError>(
            AddressError::UnknownPrefix,
        ),
{
    let m = address_of(pk).update(i, c);
    assert(address_of(pk)[i] == address_prefix()[i]);
    assert(m.subrange(0, 8)[i] != address_prefix()[i]);
}

} // verus!
