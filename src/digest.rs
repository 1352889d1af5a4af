//! The exact bytes that a client signs for a challenge.
use crate::bytes::{decimal_digits, push_decimal};
use crate::primitives::{sha256, sha256_digest};
use vstd::prelude::*;

verus! {

/// The domain-separation prefix and the length label, as bytes:
/// `"\x6DSovrin Signed Message:\nLength: "`.
pub open spec fn signed_message_head() -> Seq<u8> {
    seq![0x6d, 0x53, 0x6f, 0x76, 0x72, 0x69, 0x6e, 0x20, 0x53, 0x69, 0x67, 0x6e, 0x65, 0x64, 0x20, 0x4d, 0x65, 0x73, 0x73, 0x61, 0x67, 0x65, 0x3a, 0x0a, 0x4c, 0x65, 0x6e, 0x67, 0x74, 0x68, 0x3a, 0x20]
}

/// The message that is hashed and signed for `payload`: the prefix, the
/// decimal length of `payload`, a newline, then `payload` itself.
pub open spec fn signed_message(payload: Seq<u8>) -> Seq<u8> {
    signed_message_head() + decimal_digits(payload.len()) + seq![10u8] + payload
}

/// The digest that is signed for `payload`.
pub open spec fn digest_of(payload: Seq<u8>) -> Seq<u8> {
    sha256(signed_message(payload))
}

/// Builds the framed message for `payload` and hashes it with SHA-256.
pub fn build_digest(payload: &[u8]) -> (r: Vec<u8>)
    ensures
        r@ == digest_of(payload@),
        r@.len() == 32,
{
    let mut message: Vec<u8> = vec![0x6d, 0x53, 0x6f, 0x76, 0x72, 0x69, 0x6e, 0x20, 0x53, 0x69, 0x67, 0x6e, 0x65, 0x64, 0x20, 0x4d, 0x65, 0x73, 0x73, 0x61, 0x67, 0x65, 0x3a, 0x0a, 0x4c, 0x65, 0x6e, 0x67, 0x74, 0x68, 0x3a, 0x20];
    assert(message@ =~= signed_message_head());
    push_decimal(&mut message, payload.len());
    message.push(10u8);
    message.extend_from_slice(payload);
    assert(message@ =~= signed_message(payload@));
    sha256_digest(message.as_slice())
}

/// A larger number never has fewer decimal digits.
proof fn lemma_decimal_len_monotone(m: nat, n: nat)
    requires
        m <= n,
    ensures
        decimal_digits(m).len() <= decimal_digits(n).len(),
    decreases n,
{
    if n >= 10 && m >= 10 {
        lemma_decimal_len_monotone(m / 10, n / 10);
    } else if n >= 10 {
        lemma_decimal_len_at_least_one(n);
    }
}

proof fn lemma_decimal_len_at_least_one(n: nat)
    ensures
        decimal_digits(n).len() >= 1,
    decreases n,
{
    if n >= 10 {
        lemma_decimal_len_at_least_one(n / 10);
    }
}

/// The digest depends on the payload alone, and the framing keeps payloads
/// apart: two different payloads are framed into two different messages, so
/// their digests can agree only through a SHA-256 collision.
pub proof fn lemma_digest_framing(a: Seq<u8>, b: Seq<u8>)
    ensures
        a == b ==> digest_of(a) == digest_of(b),
        a != b ==> signed_message(a) != signed_message(b),
{
    if signed_message(a) == signed_message(b) {
        let (ma, mb) = (signed_message(a), signed_message(b));
        if a.len() < b.len() {
            lemma_decimal_len_monotone(a.len(), b.len());
            assert(ma.len() < mb.len());
        } else if b.len() < a.len() {
            lemma_decimal_len_monotone(b.len(), a.len());
            assert(mb.len() < ma.len());
        }
        assert(a.len() == b.len());
        assert(a =~= ma.subrange(ma.len() - a.len(), ma.len() as int));
        assert(b =~= mb.subrange(mb.len() - b.len(), mb.len() as int));
    }
}

} // verus!
