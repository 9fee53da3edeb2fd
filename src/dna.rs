use vstd::prelude::*;

use crate::types::AccountId;

verus! {

/// What the 128-bit Blake2 hash of `data` is.
pub uninterp spec fn blake2_128_of(data: Seq<u8>) -> Seq<u8>;

/// Relies on `sp_io::hashing::blake2_128`: a 16-byte digest that depends on
/// the input bytes alone.
#[verifier::external_body]
fn blake2_128(data: &[u8]) -> (r: [u8; 16])
    ensures
        r@ == blake2_128_of(data@),
{
    sp_io::hashing::blake2_128(data)
}

/// One byte of a child: the bits of `a` where `s` has a one, those of `b`
/// where it has a zero.
pub open spec fn mix_byte(a: u8, b: u8, s: u8) -> u8 {
    (a & s) | (b & !s)
}

/// The child payload that `selector` picks from two parent payloads.
pub open spec fn mixed_dna(a: Seq<u8>, b: Seq<u8>, selector: Seq<u8>) -> Seq<u8> {
    Seq::new(16, |i: int| mix_byte(a[i], b[i], selector[i]))
}

/// Little-endian bytes of a 32-bit integer.
pub open spec fn le_u32(x: u32) -> Seq<u8> {
    seq![x as u8, (x >> 8) as u8, (x >> 16) as u8, (x >> 24) as u8]
}

/// Little-endian bytes of a 64-bit integer.
pub open spec fn le_u64(x: u64) -> Seq<u8> {
    seq![
        x as u8,
        (x >> 8) as u8,
        (x >> 16) as u8,
        (x >> 24) as u8,
        (x >> 32) as u8,
        (x >> 40) as u8,
        (x >> 48) as u8,
        (x >> 56) as u8,
    ]
}

/// Encoding of an optional 32-bit integer: a zero byte for none, a one byte
/// and the integer's little-endian bytes otherwise.
pub open spec fn option_u32_bytes(o: Option<u32>) -> Seq<u8> {
    match o {
        None => seq![0u8],
        Some(v) => seq![1u8] + le_u32(v),
    }
}

/// The bytes hashed to obtain a selector: the randomness seed, the
/// account, and the index of the request within its block. `seed` is the
/// encoded output of the chain's randomness source (its hash followed by
/// its block number) and is taken as given.
pub open spec fn selection_payload(seed: Seq<u8>, who: AccountId, index: Option<u32>) -> Seq<u8> {
    seed + le_u64(who) + option_u32_bytes(index)
}

/// The selector derived for `who` from `seed` and `index`.
pub open spec fn selector_of(seed: Seq<u8>, who: AccountId, index: Option<u32>) -> Seq<u8> {
    blake2_128_of(selection_payload(seed, who, index))
}

/// Builds the bytes that are hashed to derive a selector. `seed` is the
/// encoded randomness output (hash, then block number) and is copied as
/// given.
pub fn selection_bytes(seed: &[u8], who: AccountId, index: Option<u32>) -> (r: Vec<u8>)
    ensures
        r@ == selection_payload(seed@, who, index),
{
    let mut out: Vec<u8> = Vec::new();
    let mut i: usize = 0;
    while i < seed.len()
        invariant
            i <= seed@.len(),
            out@ == seed@.subrange(0, i as int),
        decreases seed@.len() - i,
    {
        out.push(seed[i]);
        i = i + 1;
    }
    assert(out@ == seed@.subrange(0, seed@.len() as int));
    out.push(who as u8);
    out.push((who >> 8) as u8);
    out.push((who >> 16) as u8);
    out.push((who >> 24) as u8);
    out.push((who >> 32) as u8);
    out.push((who >> 40) as u8);
    out.push((who >> 48) as u8);
    out.push((who >> 56) as u8);
    match index {
        None => {
            out.push(0u8);
        },
        Some(v) => {
            out.push(1u8);
            out.push(v as u8);
            out.push((v >> 8) as u8);
            out.push((v >> 16) as u8);
            out.push((v >> 24) as u8);
        },
    }
    assert(out@ =~= selection_payload(seed@, who, index));
    out
}

/// Derives a pseudo-random selector for `who` from `seed`, the encoded
/// randomness output (hash, then block number), hashed as given, and
/// `index`, the request's place in its block. The result is fixed by its
/// inputs: it is only as unpredictable as `seed` and `index` are, and is
/// not fit for use where secrecy matters.
pub fn random_value(seed: &[u8], who: AccountId, index: Option<u32>) -> (r: [u8; 16])
    ensures
        r@ == selector_of(seed@, who, index),
{
    let payload = selection_bytes(seed, who, index);
    blake2_128(payload.as_slice())
}

/// Combines two parent payloads bit by bit under `selector`.
pub fn combine(a: &[u8; 16], b: &[u8; 16], selector: &[u8; 16]) -> (r: [u8; 16])
    ensures
        r@ == mixed_dna(a@, b@, selector@),
{
    let mut data: [u8; 16] = [0u8; 16];
    let mut i: usize = 0;
    while i < 16
        invariant
            i <= 16,
            forall|j: int| 0 <= j < i ==> data@[j] == mix_byte(a@[j], b@[j], selector@[j]),
        decreases 16 - i,
    {
        data[i] = a[i] & selector[i] | (b[i] & !selector[i]);
        i = i + 1;
    }
    assert(data@ =~= mixed_dna(a@, b@, selector@));
    data
}

/// Each bit of a mixed byte is the bit of the first parent where the
/// selector bit is one, and the bit of the second parent where it is zero.
pub proof fn lemma_mix_byte_bits(a: u8, b: u8, s: u8, k: u8)
    requires
        k < 8,
    ensures
        (mix_byte(a, b, s) >> k) & 1 == if (s >> k) & 1 == 1 {
            (a >> k) & 1
        } else {
            (b >> k) & 1
        },
{
    assert(((a & s) | (b & !s)) >> k & 1 == if (s >> k) & 1 == 1 {
        (a >> k) & 1
    } else {
        (b >> k) & 1
    }) by (bit_vector)
        requires
            k < 8,
    ;
}

/// The whole of a child payload comes from its parents: every byte and every
/// bit of it is the first parent's where the selector bit is one and the
/// second parent's where it is zero.
pub proof fn lemma_mixed_dna_selects(a: Seq<u8>, b: Seq<u8>, selector: Seq<u8>, i: int, k: u8)
    requires
        0 <= i < 16,
        k < 8,
    ensures
        (mixed_dna(a, b, selector)[i] >> k) & 1 == if (selector[i] >> k) & 1 == 1 {
            (a[i] >> k) & 1
        } else {
            (b[i] >> k) & 1
        },
{
    lemma_mix_byte_bits(a[i], b[i], selector[i], k);
}

} // verus!
