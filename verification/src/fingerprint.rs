//! Content fingerprints: the 64-bit clustering keys.
//!
//! A fingerprint is the digest of the block stream handed to a
//! `DefaultHasher`: one block for a single record (its possibly truncated
//! sequence), three blocks for a pair (first member's block, a fixed
//! four-byte sentinel, second member's block). Equal streams always digest to
//! the same fingerprint within a run; distinct streams may collide, which is
//! the accepted false-duplicate risk of hash-keyed clustering.

use core::hash::Hasher;
use std::collections::hash_map::DefaultHasher;
use vstd::prelude::*;
use vstd::std_specs::hash::DefaultHasherAdditionalSpecFns;

verus! {

/// The prefix of a sequence the fingerprint covers: its first `p` bytes when
/// a prefix length `p` is configured (the whole sequence if it is shorter),
/// the whole sequence otherwise.
pub open spec fn prefix_of(p: Option<usize>, s: Seq<u8>) -> Seq<u8> {
    match p {
        Some(n) => if n < s.len() {
            s.take(n as int)
        } else {
            s
        },
        None => s,
    }
}

/// The fixed sentinel block written between the two members of a pair, so
/// that the boundary between the members is part of the hashed stream.
pub open spec fn sentinel_block() -> Seq<u8> {
    seq![0u8, 0u8, 0u8, 0u8]
}

/// The block stream hashed for a single record.
pub open spec fn single_stream(block: Seq<u8>) -> Seq<Seq<u8>> {
    seq![block]
}

/// The block stream hashed for a pair: the members keep their positional
/// roles, separated by the sentinel block.
pub open spec fn pair_stream(block1: Seq<u8>, block2: Seq<u8>) -> Seq<Seq<u8>> {
    seq![block1, sentinel_block(), block2]
}

/// The 64-bit digest of a block stream.
pub open spec fn fingerprint_of(stream: Seq<Seq<u8>>) -> u64 {
    DefaultHasher::spec_finish(stream)
}

/// Hash one byte block into a fingerprint.
pub fn hash_single_block(block: &[u8]) -> (h: u64)
    ensures
        h == fingerprint_of(single_stream(block@)),
{
    let mut hasher = DefaultHasher::new();
    hasher.write(block);
    proof {
        assert(hasher@ =~= single_stream(block@));
    }
    hasher.finish()
}

/// Hash two byte blocks, in their positional roles, into a fingerprint.
pub fn hash_pair_blocks(block1: &[u8], block2: &[u8]) -> (h: u64)
    ensures
        h == fingerprint_of(pair_stream(block1@, block2@)),
{
    let mut hasher = DefaultHasher::new();
    hasher.write(block1);
    let mut sentinel: Vec<u8> = Vec::new();
    sentinel.push(0);
    sentinel.push(0);
    sentinel.push(0);
    sentinel.push(0);
    proof {
        assert(sentinel@ =~= sentinel_block());
    }
    hasher.write(sentinel.as_slice());
    hasher.write(block2);
    proof {
        assert(hasher@ =~= pair_stream(block1@, block2@));
    }
    hasher.finish()
}

/// Swapping the members of a pair changes the hashed stream whenever the two
/// blocks differ: the fingerprint input depends on the positional role of
/// each member. (Equal fingerprints for the two orders would then need a
/// digest collision.)
pub proof fn lemma_pair_stream_order_sensitive(block1: Seq<u8>, block2: Seq<u8>)
    requires
        block1 != block2,
    ensures
        pair_stream(block1, block2) != pair_stream(block2, block1),
{
    assert(pair_stream(block1, block2)[0] == block1);
    assert(pair_stream(block2, block1)[0] == block2);
}

} // verus!
