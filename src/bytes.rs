use vstd::prelude::*;

verus! {

/// The eight bytes of `t`, most significant first.
pub open spec fn be_bytes_of(t: u64) -> Seq<u8> {
    seq![
        (t >> 56u64) as u8,
        (t >> 48u64) as u8,
        (t >> 40u64) as u8,
        (t >> 32u64) as u8,
        (t >> 24u64) as u8,
        (t >> 16u64) as u8,
        (t >> 8u64) as u8,
        t as u8,
    ]
}

/// The integer that the first eight bytes of `s` spell, most significant first.
pub open spec fn be_value(s: Seq<u8>) -> u64
    recommends
        s.len() >= 8,
{
    ((s[0] as u64) << 56u64) | ((s[1] as u64) << 48u64) | ((s[2] as u64) << 40u64) | ((
    s[3] as u64) << 32u64) | ((s[4] as u64) << 24u64) | ((s[5] as u64) << 16u64) | ((s[6] as u64)
        << 8u64) | (s[7] as u64)
}

/// Reading back the bytes of an integer gives the integer.
pub proof fn lemma_be_round_trip(t: u64)
    ensures
        be_value(be_bytes_of(t)) == t,
{
    assert(((((t >> 56u64) as u8) as u64) << 56u64) | ((((t >> 48u64) as u8) as u64) << 48u64)
        | ((((t >> 40u64) as u8) as u64) << 40u64) | ((((t >> 32u64) as u8) as u64) << 32u64)
        | ((((t >> 24u64) as u8) as u64) << 24u64) | ((((t >> 16u64) as u8) as u64) << 16u64)
        | ((((t >> 8u64) as u8) as u64) << 8u64) | ((t as u8) as u64) == t) by (bit_vector);
}

/// Writes `t` as eight bytes, most significant first.
pub fn u64_to_be_bytes(t: u64) -> (r: Vec<u8>)
    ensures
        r@ == be_bytes_of(t),
{
    let r = vec![
        (t >> 56u64) as u8,
        (t >> 48u64) as u8,
        (t >> 40u64) as u8,
        (t >> 32u64) as u8,
        (t >> 24u64) as u8,
        (t >> 16u64) as u8,
        (t >> 8u64) as u8,
        t as u8,
    ];
    assert(r@ =~= be_bytes_of(t));
    r
}

/// Reads the integer in the first eight bytes of `s`, most significant first.
pub fn u64_from_be_bytes(s: &[u8]) -> (r: u64)
    requires
        s@.len() >= 8,
    ensures
        r == be_value(s@),
{
    ((s[0] as u64) << 56u64) | ((s[1] as u64) << 48u64) | ((s[2] as u64) << 40u64) | ((
    s[3] as u64) << 32u64) | ((s[4] as u64) << 24u64) | ((s[5] as u64) << 16u64) | ((s[6] as u64)
        << 8u64) | (s[7] as u64)
}

/// The ASCII digits of `n` in base ten, without leading zeros.
pub open spec fn decimal_digits(n: nat) -> Seq<u8>
    decreases n,
{
    if n < 10 {
        seq![(48 + n) as u8]
    } else {
        decimal_digits(n / 10).push((48 + n % 10) as u8)
    }
}

/// Appends the decimal digits of `n` to `out`.
pub fn push_decimal(out: &mut Vec<u8>, n: usize)
    ensures
        final(out)@ == old(out)@ + decimal_digits(n as nat),
    decreases n,
{
    if n >= 10 {
        push_decimal(out, n / 10);
    }
    out.push((48 + n % 10) as u8);
    assert(out@ =~= old(out)@ + decimal_digits(n as nat));
}

} // verus!
