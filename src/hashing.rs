//! Proposal ids: a BLAKE2 hash of the SCALE encoding of a proposal and of the
//! hash of its description.

use vstd::prelude::*;
use crate::types::{Hash256, Proposal, ProposalId};

verus! {

/// What BLAKE2b with a 256-bit output gives for some bytes.
pub uninterp spec fn blake2x256_of(input: Seq<u8>) -> Seq<u8>;

/// Relies on `ink::env::hash_bytes::<Blake2x256>`: the 32-byte BLAKE2b digest,
/// which depends on the input bytes alone.
#[verifier::external_body]
fn blake2x256(input: &Vec<u8>) -> (r: Hash256)
    ensures
        r.0@ == blake2x256_of(input@),
{
    let mut out = [0u8; 32];
    ink::env::hash_bytes::<ink::env::hash::Blake2x256>(input.as_slice(), &mut out);
    Hash256(out)
}

/// The SCALE compact encoding of a length that fits in a `u32`: one, two or
/// four little-endian bytes holding the length shifted left by two with the
/// mode in the low bits, or the mode byte 3 followed by four bytes.
pub open spec fn compact_len_prefix(n: nat) -> Seq<u8> {
    if n < 64 {
        seq![(n * 4) as u8]
    } else if n < 16384 {
        le_bytes(n * 4 + 1, 2)
    } else if n < 1073741824 {
        le_bytes(n * 4 + 2, 4)
    } else {
        seq![3u8] + le_bytes(n, 4)
    }
}

/// What SCALE encodes a byte vector to: its compact length, then the bytes.
pub open spec fn scale_bytes_of(input: Seq<u8>) -> Seq<u8> {
    compact_len_prefix(input.len()) + input
}

/// Relies on `parity_scale_codec::Encode::encode` for `Vec<u8>`: the compact
/// encoding of the length (`Compact<u32>`), then the bytes; it panics on a
/// length beyond `u32::MAX`.
#[verifier::external_body]
fn scale_encode_bytes(input: &Vec<u8>) -> (r: Vec<u8>)
    requires
        input@.len() <= u32::MAX,
    ensures
        r@ == scale_bytes_of(input@),
{
    parity_scale_codec::Encode::encode(input)
}

/// The `n` low bytes of `v`, least significant first.
pub open spec fn le_bytes(v: nat, n: nat) -> Seq<u8>
    decreases n,
{
    if n == 0 {
        Seq::empty()
    } else {
        seq![(v % 256) as u8] + le_bytes(v / 256, (n - 1) as nat)
    }
}

/// The SCALE encoding of a proposal: the fields in order, fixed-size arrays as
/// they are, the input with its compact length prefix, the value in 16 little-endian bytes.
pub open spec fn proposal_encoding(p: Proposal) -> Seq<u8> {
    p.callee.0@ + p.selector@ + scale_bytes_of(p.input@) + le_bytes(p.transferred_value as nat, 16)
}

/// The bytes whose hash is the id of a proposal.
pub open spec fn proposal_preimage(p: Proposal, description_hash: Hash256) -> Seq<u8> {
    proposal_encoding(p) + description_hash.0@
}

/// The id of a proposal with a given description hash.
pub open spec fn proposal_id_of(p: Proposal, description_hash: Hash256) -> Hash256 {
    Hash256(choose_hash(blake2x256_of(proposal_preimage(p, description_hash))))
}

/// The array that holds a 32-byte digest.
pub open spec fn choose_hash(digest: Seq<u8>) -> [u8; 32] {
    choose|a: [u8; 32]| a@ == digest
}

fn push_all(dest: &mut Vec<u8>, src: &[u8])
    ensures
        final(dest)@ == old(dest)@ + src@,
{
    let mut i: usize = 0;
    while i < src.len()
        invariant
            0 <= i <= src@.len(),
            dest@ == old(dest)@ + src@.subrange(0, i as int),
        decreases src@.len() - i,
    {
        dest.push(src[i]);
        i = i + 1;
        assert(src@.subrange(0, i as int) =~= src@.subrange(0, i - 1 as int).push(src@[i - 1]));
    }
    assert(src@.subrange(0, src@.len() as int) =~= src@);
}

/// Appends the 16 little-endian bytes of a `u128`.
fn push_u128_le(dest: &mut Vec<u8>, v: u128)
    ensures
        final(dest)@ == old(dest)@ + le_bytes(v as nat, 16),
{
    let mut x: u128 = v;
    let mut i: usize = 0;
    while i < 16
        invariant
            0 <= i <= 16,
            dest@ + le_bytes(x as nat, (16 - i) as nat) == old(dest)@ + le_bytes(v as nat, 16),
        decreases 16 - i,
    {
        let b: u8 = (x % 256) as u8;
        proof {
            let k = (16 - i) as nat;
            assert(le_bytes(x as nat, k) == seq![b] + le_bytes((x / 256) as nat, (k - 1) as nat));
            assert(dest@.push(b) + le_bytes((x / 256) as nat, (k - 1) as nat) =~= dest@ + (seq![b]
                + le_bytes((x / 256) as nat, (k - 1) as nat)));
        }
        dest.push(b);
        x = x / 256;
        i = i + 1;
    }
    assert(le_bytes(x as nat, 0) =~= Seq::<u8>::empty());
    assert(dest@ + le_bytes(x as nat, 0) =~= dest@);
}

/// The SCALE encoding of a proposal.
pub fn encode_proposal(proposal: &Proposal) -> (r: Vec<u8>)
    requires
        proposal.input@.len() <= u32::MAX,
    ensures
        r@ == proposal_encoding(*proposal),
{
    let mut out: Vec<u8> = Vec::new();
    push_all(&mut out, proposal.callee.0.as_slice());
    push_all(&mut out, proposal.selector.as_slice());
    let input = scale_encode_bytes(&proposal.input);
    push_all(&mut out, input.as_slice());
    push_u128_le(&mut out, proposal.transferred_value);
    assert(out@ =~= proposal_encoding(*proposal));
    out
}

/// The hash of a description.
pub open spec fn description_hash_of(description: Seq<u8>) -> Hash256 {
    Hash256(choose_hash(blake2x256_of(description)))
}

/// The hash of a description: BLAKE2b-256 of its bytes.
pub fn hash_description(description: &Vec<u8>) -> (r: Hash256)
    ensures
        r.0@ == blake2x256_of(description@),
        r == description_hash_of(description@),
{
    let r = blake2x256(description);
    proof {
        let a = choose_hash(blake2x256_of(description@));
        assert(a@ == r.0@);
        vstd::array::axiom_array_ext_equal(a, r.0);
    }
    r
}

/// The id of a proposal: BLAKE2b-256 of the encoded proposal followed by the
/// description hash.
pub fn hash_proposal(proposal: &Proposal, description_hash: &Hash256) -> (r: ProposalId)
    requires
        proposal.input@.len() <= u32::MAX,
    ensures
        r.0@ == blake2x256_of(proposal_preimage(*proposal, *description_hash)),
        r == proposal_id_of(*proposal, *description_hash),
{
    let mut data = encode_proposal(proposal);
    push_all(&mut data, description_hash.0.as_slice());
    let r = blake2x256(&data);
    proof {
        assert(data@ =~= proposal_preimage(*proposal, *description_hash));
        let a = choose_hash(blake2x256_of(proposal_preimage(*proposal, *description_hash)));
        assert(a@ == r.0@);
        vstd::array::axiom_array_ext_equal(a, r.0);
    }
    r
}

/// The id of a proposal depends on the proposal and the description hash
/// alone: equal inputs give equal ids, in every call.
pub proof fn lemma_proposal_id_deterministic(p: Proposal, d: Hash256, q: Proposal, e: Hash256)
    requires
        p == q,
        d == e,
    ensures
        proposal_id_of(p, d) == proposal_id_of(q, e),
        proposal_preimage(p, d) == proposal_preimage(q, e),
{
}

} // verus!
