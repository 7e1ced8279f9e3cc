//! The seed lists from which the host derives the address of a multisig and
//! of each of its proposals.
//!
//! A multisig is addressed by its creator and a nonce that the creator
//! picks; a proposal by its multisig and the value that the multisig's
//! proposal counter had when the proposal was made. Different inputs give
//! different seed lists, so no two records share an address.

use vstd::prelude::*;
use vstd::bytes::{
    lemma_auto_spec_u32_to_from_le_bytes, spec_u32_from_le_bytes, spec_u32_to_le_bytes,
    u32_to_le_bytes,
};
use crate::pubkey::{Pubkey, lemma_agreeing_keys_equal};

verus! {

/// What a list of seeds holds, seed by seed.
pub open spec fn seeds_view(seeds: Seq<Vec<u8>>) -> Seq<Seq<u8>> {
    seeds.map_values(|seed: Vec<u8>| seed@)
}

/// The bytes of the text `multisig`.
pub open spec fn multisig_tag() -> Seq<u8> {
    seq![109u8, 117u8, 108u8, 116u8, 105u8, 115u8, 105u8, 103u8]
}

/// The bytes of the text `proposal`.
pub open spec fn proposal_tag() -> Seq<u8> {
    seq![112u8, 114u8, 111u8, 112u8, 111u8, 115u8, 97u8, 108u8]
}

/// The seeds of a multisig's address: the tag, the creator, the nonce.
pub open spec fn multisig_seeds_of(creator: Pubkey, nonce: u8) -> Seq<Seq<u8>> {
    seq![multisig_tag(), creator.bytes@, seq![nonce]]
}

/// The seeds with which a multisig signs: those of its address, then the bump.
pub open spec fn signer_seeds_of(creator: Pubkey, nonce: u8, bump: u8) -> Seq<Seq<u8>> {
    multisig_seeds_of(creator, nonce).push(seq![bump])
}

/// The seeds of a proposal's address: the tag, the multisig, and the
/// counter value in little-endian bytes.
pub open spec fn proposal_seeds_of(multisig: Pubkey, index: u32) -> Seq<Seq<u8>> {
    seq![proposal_tag(), multisig.bytes@, spec_u32_to_le_bytes(index)]
}

fn key_bytes(key: &Pubkey) -> (bytes: Vec<u8>)
    ensures
        bytes@ == key.bytes@,
{
    let mut bytes: Vec<u8> = Vec::new();
    let mut i: usize = 0;
    while i < 32
        invariant
            i <= 32,
            bytes@.len() == i,
            forall|j: int| 0 <= j < i ==> bytes@[j] == key.bytes[j],
        decreases 32 - i,
    {
        bytes.push(key.bytes[i]);
        i += 1;
    }
    assert(bytes@ =~= key.bytes@);
    bytes
}

pub fn multisig_seeds(creator: &Pubkey, nonce: u8) -> (seeds: Vec<Vec<u8>>)
    ensures
        seeds_view(seeds@) == multisig_seeds_of(*creator, nonce),
{
    let tag: Vec<u8> = vec![109u8, 117u8, 108u8, 116u8, 105u8, 115u8, 105u8, 103u8];
    let seeds: Vec<Vec<u8>> = vec![tag, key_bytes(creator), vec![nonce]];
    assert(seeds[0]@ =~= multisig_tag());
    assert(seeds[2]@ =~= seq![nonce]);
    assert(seeds_view(seeds@) =~= multisig_seeds_of(*creator, nonce));
    seeds
}

pub fn signer_seeds(creator: &Pubkey, nonce: u8, bump: u8) -> (seeds: Vec<Vec<u8>>)
    ensures
        seeds_view(seeds@) == signer_seeds_of(*creator, nonce, bump),
{
    let mut seeds: Vec<Vec<u8>> = multisig_seeds(creator, nonce);
    let ghost address_seeds = seeds_view(seeds@);
    let last: Vec<u8> = vec![bump];
    assert(last@ =~= seq![bump]);
    seeds.push(last);
    assert(seeds_view(seeds@) =~= address_seeds.push(seq![bump]));
    seeds
}

pub fn proposal_seeds(multisig: &Pubkey, index: u32) -> (seeds: Vec<Vec<u8>>)
    ensures
        seeds_view(seeds@) == proposal_seeds_of(*multisig, index),
{
    let tag: Vec<u8> = vec![112u8, 114u8, 111u8, 112u8, 111u8, 115u8, 97u8, 108u8];
    let seeds: Vec<Vec<u8>> = vec![tag, key_bytes(multisig), u32_to_le_bytes(index)];
    assert(seeds[0]@ =~= proposal_tag());
    assert(seeds_view(seeds@) =~= proposal_seeds_of(*multisig, index));
    seeds
}

/// Seed lists that are equal hold the same key in their second seed.
proof fn lemma_same_key_seed(k1: Pubkey, k2: Pubkey)
    requires
        k1.bytes@ == k2.bytes@,
    ensures
        k1 == k2,
{
    assert(k1.agrees_up_to(k2, 32)) by {
        assert forall|j: int| 0 <= j < 32 implies k1.bytes[j] == k2.bytes[j] by {
            assert(k1.bytes@[j] == k2.bytes@[j]);
        }
    }
    lemma_agreeing_keys_equal(k1, k2);
}

/// Two proposals share their seeds only if they belong to the same multisig
/// and were made at the same counter value.
pub proof fn lemma_proposal_seeds_injective(m1: Pubkey, i1: u32, m2: Pubkey, i2: u32)
    requires
        proposal_seeds_of(m1, i1) == proposal_seeds_of(m2, i2),
    ensures
        m1 == m2,
        i1 == i2,
{
    let s1 = proposal_seeds_of(m1, i1);
    let s2 = proposal_seeds_of(m2, i2);
    assert(s1[1] == s2[1]);
    assert(s1[2] == s2[2]);
    lemma_same_key_seed(m1, m2);
    // The counter is read back from its four bytes.
    lemma_auto_spec_u32_to_from_le_bytes();
    assert(spec_u32_to_le_bytes(i1).len() == 4 && spec_u32_to_le_bytes(i2).len() == 4);
    assert(spec_u32_from_le_bytes(spec_u32_to_le_bytes(i1)) == i1);
    assert(spec_u32_from_le_bytes(spec_u32_to_le_bytes(i2)) == i2);
}

/// Two multisigs share their seeds only if they have the same creator and
/// the same nonce.
pub proof fn lemma_multisig_seeds_injective(c1: Pubkey, n1: u8, c2: Pubkey, n2: u8)
    requires
        multisig_seeds_of(c1, n1) == multisig_seeds_of(c2, n2),
    ensures
        c1 == c2,
        n1 == n2,
{
    let s1 = multisig_seeds_of(c1, n1);
    let s2 = multisig_seeds_of(c2, n2);
    assert(s1[1] == s2[1]);
    assert(s1[2][0] == n1 && s2[2][0] == n2);
    lemma_same_key_seed(c1, c2);
}

} // verus!
