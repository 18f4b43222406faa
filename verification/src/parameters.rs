//! Parameters of the networks.
use vstd::prelude::*;
use crate::block;

verus! {

/// The network that a chain lives on.
#[derive(Clone, Copy, Debug, PartialEq, Eq, Structural, Hash)]
pub enum Network {
    Mainnet,
    Testnet,
}

/// The bytes of the hash that the genesis block names as its previous block.
pub const GENESIS_PREVIOUS_BLOCK_HASH_BYTES: [u8; 32] = [
    0, 0, 0, 0, 0, 0, 0, 0, 0, 0, 0, 0, 0, 0, 0, 0, 0, 0, 0, 0, 0, 0, 0, 0, 0, 0, 0, 0, 0, 0, 0, 0,
];

/// The hash that the genesis block names as its previous block: 32 zero bytes.
pub open spec fn spec_genesis_previous_block_hash() -> block::Hash {
    block::Hash(GENESIS_PREVIOUS_BLOCK_HASH_BYTES)
}

/// The hash that the genesis block names as its previous block: 32 zero bytes.
#[verifier::when_used_as_spec(spec_genesis_previous_block_hash)]
pub fn genesis_previous_block_hash() -> (r: block::Hash)
    ensures
        r == spec_genesis_previous_block_hash(),
{
    block::Hash(GENESIS_PREVIOUS_BLOCK_HASH_BYTES)
}

} // verus!
