//! Blocks, their headers, heights and hashes.
use vstd::prelude::*;
use crate::serialization::DateTime32;
use crate::transaction::{clone_transactions, transactions_view, Transaction, TransactionView};

verus! {

/// The height of a block: the number of blocks between it and the genesis block.
#[derive(Clone, Copy, Debug, PartialEq, Eq, Structural, Hash)]
pub struct Height(pub u32);

/// The 32-byte digest that names a block.
#[derive(Clone, Copy, Debug, PartialEq, Eq, Hash)]
pub struct Hash(pub [u8; 32]);

impl Hash {
    /// Tells whether two digests hold the same 32 bytes.
    pub fn same(&self, other: &Hash) -> (r: bool)
        ensures
            r == (*self == *other),
    {
        let mut i: usize = 0;
        while i < 32
            invariant
                i <= 32,
                forall|j: int| 0 <= j < i ==> self.0[j] == other.0[j],
            decreases 32 - i,
        {
            if self.0[i] != other.0[i] {
                return false;
            }
            i = i + 1;
        }
        assert(self.0 =~= other.0);
        true
    }
}

/// The root of the merkle tree over the transactions of a block.
#[derive(Clone, Copy, Debug, PartialEq, Eq, Hash)]
pub struct Root(pub [u8; 32]);

/// The header of a block.
///
/// The proof-of-work solution is not part of this model: nothing here checks
/// proof of work.
#[derive(Clone, Copy, Debug, PartialEq, Eq, Hash)]
pub struct Header {
    pub version: u32,
    /// The hash of the block before this one.
    pub previous_block_hash: Hash,
    /// The root of the merkle tree over the block's transactions.
    pub merkle_root: Root,
    /// The commitment that the header makes to the chain's shielded state.
    pub commitment_bytes: [u8; 32],
    /// When the block was mined.
    pub time: DateTime32,
    pub difficulty_threshold: u32,
    pub nonce: [u8; 32],
}

/// A block: a header and the transactions under it.
#[derive(Debug, PartialEq, Eq)]
pub struct Block {
    pub header: Header,
    pub transactions: Vec<Transaction>,
}

/// What a [`Block`] holds.
pub struct BlockView {
    pub header: Header,
    pub transactions: Seq<TransactionView>,
}

impl View for Block {
    type V = BlockView;

    open spec fn view(&self) -> BlockView {
        BlockView { header: self.header, transactions: transactions_view(self.transactions@) }
    }
}

impl Clone for Block {
    fn clone(&self) -> (r: Self)
        ensures
            r@ == self@,
    {
        Block { header: self.header, transactions: clone_transactions(&self.transactions) }
    }
}

/// The views of a run of blocks.
pub open spec fn blocks_view(blocks: Seq<Block>) -> Seq<BlockView> {
    Seq::new(blocks.len(), |i: int| blocks[i]@)
}

} // verus!
