//! Reads of blocks, headers, transactions and unspent outputs from the two
//! layers of the state: the chain that is not final yet, kept in memory and
//! asked first, and the finalized store below it.
use vstd::prelude::*;
use crate::block::{self, Block, Header, Height};
use crate::transaction::{self, Transaction};
use crate::transparent::{OrderedUtxoView, OutPoint, Utxo, UtxoView};
use crate::utxo_set::{spec_get, UtxoSet};
use crate::views::{spec_option_deref, spec_owned_view};

verus! {

/// Names a block by its hash or by its height.
#[derive(Clone, Copy, Debug, PartialEq, Eq)]
pub enum HashOrHeight {
    Hash(block::Hash),
    Height(Height),
}

/// A block with what the state has computed of it.
#[derive(Debug, PartialEq, Eq)]
pub struct ContextuallyValidBlock {
    pub block: Block,
    pub hash: block::Hash,
    pub height: Height,
    /// The hash of each transaction of the block, in their order.
    pub transaction_hashes: Vec<transaction::Hash>,
}

/// The blocks of a layer with what each made and spent.
///
/// Where two blocks have one hash or one height, or two transactions one
/// hash, a read finds the first.
#[derive(Debug, PartialEq, Eq)]
pub struct Chain {
    pub blocks: Vec<ContextuallyValidBlock>,
    /// The outputs that the blocks of the chain made, spent or not.
    pub created_utxos: UtxoSet,
    /// The outputs that the blocks of the chain spent.
    pub spent_utxos: Vec<OutPoint>,
}

/// The finalized store, as far as reads go: its blocks and the outputs that
/// are unspent in it.
#[derive(Debug, PartialEq, Eq)]
pub struct ZebraDb {
    pub blocks: Vec<ContextuallyValidBlock>,
    pub utxos: UtxoSet,
}

/// Whether `id` names `stored`.
pub open spec fn spec_names(id: HashOrHeight, stored: ContextuallyValidBlock) -> bool {
    match id {
        HashOrHeight::Hash(hash) => stored.hash == hash,
        HashOrHeight::Height(height) => stored.height == height,
    }
}

/// Whether the block at `i` is the first that `id` names.
pub open spec fn spec_is_first_named(blocks: Seq<ContextuallyValidBlock>, i: int, id: HashOrHeight)
    -> bool {
    &&& 0 <= i < blocks.len()
    &&& spec_names(id, blocks[i])
    &&& forall|j: int| 0 <= j < i ==> !spec_names(id, #[trigger] blocks[j])
}

/// The first block that `id` names, if it names one.
pub open spec fn spec_find_block(blocks: Seq<ContextuallyValidBlock>, id: HashOrHeight) -> Option<
    ContextuallyValidBlock,
> {
    if exists|i: int| spec_is_first_named(blocks, i, id) {
        Some(blocks[choose|i: int| spec_is_first_named(blocks, i, id)])
    } else {
        None
    }
}

/// Whether the transaction at `j` of `stored` is the first of that block
/// with the hash `hash`.
pub open spec fn spec_is_first_in_block(
    stored: ContextuallyValidBlock,
    j: int,
    hash: transaction::Hash,
) -> bool {
    &&& 0 <= j < stored.transaction_hashes@.len()
    &&& j < stored.block.transactions@.len()
    &&& stored.transaction_hashes@[j] == hash
    &&& forall|k: int| 0 <= k < j ==> stored.transaction_hashes@[k] != hash
}

/// Whether `stored` holds a transaction with the hash `hash`.
pub open spec fn spec_holds_transaction(stored: ContextuallyValidBlock, hash: transaction::Hash)
    -> bool {
    exists|j: int| spec_is_first_in_block(stored, j, hash)
}

/// Whether the transaction at `j` of the block at `i` is the first with the
/// hash `hash`: no earlier block holds such a transaction.
pub open spec fn spec_is_first_transaction(
    blocks: Seq<ContextuallyValidBlock>,
    i: int,
    j: int,
    hash: transaction::Hash,
) -> bool {
    &&& 0 <= i < blocks.len()
    &&& spec_is_first_in_block(blocks[i], j, hash)
    &&& forall|a: int| 0 <= a < i ==> !spec_holds_transaction(#[trigger] blocks[a], hash)
}

/// The first transaction with the hash `hash`, with the height of its block,
/// if there is one.
pub open spec fn spec_find_transaction(
    blocks: Seq<ContextuallyValidBlock>,
    hash: transaction::Hash,
) -> Option<(Transaction, Height)> {
    if exists|i: int, j: int| spec_is_first_transaction(blocks, i, j, hash) {
        let (i, j) = choose|i: int, j: int| spec_is_first_transaction(blocks, i, j, hash);
        Some((blocks[i].block.transactions@[j], blocks[i].height))
    } else {
        None
    }
}

/// The first block that `id` names is found at one place only.
pub proof fn lemma_first_named_unique(
    blocks: Seq<ContextuallyValidBlock>,
    i: int,
    id: HashOrHeight,
)
    requires
        spec_is_first_named(blocks, i, id),
    ensures
        spec_find_block(blocks, id) == Some(blocks[i]),
{
    let k = choose|k: int| spec_is_first_named(blocks, k, id);
    if i < k {
        assert(!spec_names(id, blocks[i]));
    }
    if k < i {
        assert(!spec_names(id, blocks[k]));
    }
}

/// The first transaction with a hash is found at one place only.
pub proof fn lemma_first_transaction_unique(
    blocks: Seq<ContextuallyValidBlock>,
    i: int,
    j: int,
    hash: transaction::Hash,
)
    requires
        spec_is_first_transaction(blocks, i, j, hash),
    ensures
        spec_find_transaction(blocks, hash) == Some(
            (blocks[i].block.transactions@[j], blocks[i].height),
        ),
{
    let (a, b) = choose|a: int, b: int| spec_is_first_transaction(blocks, a, b, hash);
    if i < a {
        assert(!spec_holds_transaction(blocks[i], hash));
    }
    if a < i {
        assert(!spec_holds_transaction(blocks[a], hash));
    }
    if j < b {
        assert(blocks[i].transaction_hashes@[j] != hash);
    }
    if b < j {
        assert(blocks[i].transaction_hashes@[b] != hash);
    }
}

/// Finds the first block that `id` names.
pub fn find_block<'a>(blocks: &'a Vec<ContextuallyValidBlock>, id: HashOrHeight) -> (r: Option<
    &'a ContextuallyValidBlock,
>)
    ensures
        match r {
            Some(stored) => spec_find_block(blocks@, id) == Some(*stored),
            None => spec_find_block(blocks@, id) is None,
        },
{
    let mut i: usize = 0;
    while i < blocks.len()
        invariant
            i <= blocks.len(),
            forall|j: int| 0 <= j < i ==> !spec_names(id, #[trigger] blocks@[j]),
        decreases blocks.len() - i,
    {
        let named = match id {
            HashOrHeight::Hash(hash) => blocks[i].hash.same(&hash),
            HashOrHeight::Height(height) => blocks[i].height.0 == height.0,
        };
        if named {
            proof {
                assert(spec_is_first_named(blocks@, i as int, id));
                lemma_first_named_unique(blocks@, i as int, id);
            }
            return Some(&blocks[i]);
        }
        i = i + 1;
    }
    None
}

/// Finds in one block the first transaction with the hash `hash`.
pub fn find_in_block(stored: &ContextuallyValidBlock, hash: &transaction::Hash) -> (r: Option<
    usize,
>)
    ensures
        match r {
            Some(j) => spec_is_first_in_block(*stored, j as int, *hash),
            None => !spec_holds_transaction(*stored, *hash),
        },
{
    let mut j: usize = 0;
    while j < stored.transaction_hashes.len() && j < stored.block.transactions.len()
        invariant
            j <= stored.transaction_hashes.len(),
            j <= stored.block.transactions.len(),
            forall|k: int| 0 <= k < j ==> stored.transaction_hashes@[k] != *hash,
        decreases stored.transaction_hashes.len() - j,
    {
        if stored.transaction_hashes[j].same(hash) {
            return Some(j);
        }
        j = j + 1;
    }
    assert forall|k: int| !spec_is_first_in_block(*stored, k, *hash) by {
        if 0 <= k < j {
            assert(stored.transaction_hashes@[k] != *hash);
        }
    }
    None
}

/// Finds the first transaction with the hash `hash` and the height of its
/// block.
pub fn find_transaction<'a>(blocks: &'a Vec<ContextuallyValidBlock>, hash: &transaction::Hash) -> (r:
    Option<(&'a Transaction, Height)>)
    ensures
        match r {
            Some((tx, height)) => spec_find_transaction(blocks@, *hash) == Some((*tx, height)),
            None => spec_find_transaction(blocks@, *hash) is None,
        },
{
    let mut i: usize = 0;
    while i < blocks.len()
        invariant
            i <= blocks.len(),
            forall|a: int| 0 <= a < i ==> !spec_holds_transaction(#[trigger] blocks@[a], *hash),
        decreases blocks.len() - i,
    {
        match find_in_block(&blocks[i], hash) {
            Some(j) => {
                proof {
                    assert(spec_is_first_transaction(blocks@, i as int, j as int, *hash));
                    lemma_first_transaction_unique(blocks@, i as int, j as int, *hash);
                }
                return Some((&blocks[i].block.transactions[j], blocks[i].height));
            },
            None => {},
        }
        i = i + 1;
    }
    assert forall|a: int, b: int| !spec_is_first_transaction(blocks@, a, b, *hash) by {
        if 0 <= a < blocks@.len() && spec_is_first_in_block(blocks@[a], b, *hash) {
            assert(spec_holds_transaction(blocks@[a], *hash));
        }
    }
    None
}

impl Chain {
    /// The first block of the chain that `id` names.
    pub open spec fn spec_block(&self, id: HashOrHeight) -> Option<ContextuallyValidBlock> {
        spec_find_block(self.blocks@, id)
    }

    /// The first transaction of the chain with the hash `hash`, with the
    /// height of its block.
    pub open spec fn spec_transaction(&self, hash: transaction::Hash) -> Option<
        (Transaction, Height),
    > {
        spec_find_transaction(self.blocks@, hash)
    }

    /// The output that `outpoint` names, if a block of the chain made it.
    pub open spec fn spec_created_utxo(&self, outpoint: OutPoint) -> Option<UtxoView> {
        match spec_get(self.created_utxos@, outpoint) {
            Some(ordered) => Some(ordered.utxo),
            None => None,
        }
    }

    /// The first block of the chain that `id` names.
    pub fn block(&self, id: HashOrHeight) -> (r: Option<&ContextuallyValidBlock>)
        ensures
            match r {
                Some(stored) => self.spec_block(id) == Some(*stored),
                None => self.spec_block(id) is None,
            },
    {
        find_block(&self.blocks, id)
    }

    /// The first transaction of the chain with the hash `hash`, with the
    /// height of its block.
    pub fn transaction(&self, hash: &transaction::Hash) -> (r: Option<(&Transaction, Height)>)
        ensures
            match r {
                Some((tx, height)) => self.spec_transaction(*hash) == Some((*tx, height)),
                None => self.spec_transaction(*hash) is None,
            },
    {
        find_transaction(&self.blocks, hash)
    }

    /// The output that `outpoint` names, if a block of the chain made it,
    /// whether or not it was spent since.
    pub fn created_utxo(&self, outpoint: &OutPoint) -> (r: Option<Utxo>)
        ensures
            match r {
                Some(utxo) => self.spec_created_utxo(*outpoint) == Some(utxo@),
                None => self.spec_created_utxo(*outpoint) is None,
            },
    {
        match self.created_utxos.get(outpoint) {
            Some(ordered) => Some(ordered.utxo.clone()),
            None => None,
        }
    }

    /// Whether a block of the chain spent the output that `outpoint` names.
    pub fn has_spent(&self, outpoint: &OutPoint) -> (r: bool)
        ensures
            r == self.spent_utxos@.contains(*outpoint),
    {
        let mut i: usize = 0;
        while i < self.spent_utxos.len()
            invariant
                i <= self.spent_utxos.len(),
                forall|j: int| 0 <= j < i ==> self.spent_utxos@[j] != *outpoint,
            decreases self.spent_utxos.len() - i,
        {
            if self.spent_utxos[i].same(outpoint) {
                return true;
            }
            i = i + 1;
        }
        false
    }
}

impl ZebraDb {
    /// The first block of the store that `id` names.
    pub open spec fn spec_block(&self, id: HashOrHeight) -> Option<ContextuallyValidBlock> {
        spec_find_block(self.blocks@, id)
    }

    /// The first transaction of the store with the hash `hash`, with the
    /// height of its block.
    pub open spec fn spec_transaction(&self, hash: transaction::Hash) -> Option<
        (Transaction, Height),
    > {
        spec_find_transaction(self.blocks@, hash)
    }

    /// The unspent output of the store that `outpoint` names.
    pub open spec fn spec_utxo(&self, outpoint: OutPoint) -> Option<OrderedUtxoView> {
        spec_get(self.utxos@, outpoint)
    }

    /// The first block of the store that `id` names.
    pub fn block(&self, id: HashOrHeight) -> (r: Option<&Block>)
        ensures
            match r {
                Some(found) => self.spec_block(id) matches Some(stored) && stored.block == *found,
                None => self.spec_block(id) is None,
            },
    {
        match find_block(&self.blocks, id) {
            Some(stored) => Some(&stored.block),
            None => None,
        }
    }

    /// The header of the first block of the store that `id` names.
    pub fn block_header(&self, id: HashOrHeight) -> (r: Option<Header>)
        ensures
            match r {
                Some(header) => self.spec_block(id) matches Some(stored) && stored.block.header
                    == header,
                None => self.spec_block(id) is None,
            },
    {
        match find_block(&self.blocks, id) {
            Some(stored) => Some(stored.block.header),
            None => None,
        }
    }

    /// The first transaction of the store with the hash `hash`, with the
    /// height of its block.
    pub fn transaction(&self, hash: &transaction::Hash) -> (r: Option<(&Transaction, Height)>)
        ensures
            match r {
                Some((tx, height)) => self.spec_transaction(*hash) == Some((*tx, height)),
                None => self.spec_transaction(*hash) is None,
            },
    {
        find_transaction(&self.blocks, hash)
    }
}

/// What a read of a block gives: the block of the chain that `id` names,
/// and where the chain names none, the block of the store.
pub open spec fn spec_read_block(chain: Option<&Chain>, db: &ZebraDb, id: HashOrHeight) -> Option<
    Block,
> {
    match chain {
        Some(c) => match c.spec_block(id) {
            Some(stored) => Some(stored.block),
            None => match db.spec_block(id) {
                Some(stored) => Some(stored.block),
                None => None,
            },
        },
        None => match db.spec_block(id) {
            Some(stored) => Some(stored.block),
            None => None,
        },
    }
}

/// What a read of a transaction gives: the transaction of the chain with
/// the hash, and where the chain has none, that of the store.
pub open spec fn spec_read_transaction(
    chain: Option<&Chain>,
    db: &ZebraDb,
    hash: transaction::Hash,
) -> Option<(Transaction, Height)> {
    match chain {
        Some(c) => match c.spec_transaction(hash) {
            Some(found) => Some(found),
            None => db.spec_transaction(hash),
        },
        None => db.spec_transaction(hash),
    }
}

/// What a read of an output gives: the output that the chain made, and
/// where the chain made none, the unspent output of the store.
pub open spec fn spec_read_utxo(chain: Option<&Chain>, db: &ZebraDb, outpoint: OutPoint) -> Option<
    UtxoView,
> {
    let stored = match db.spec_utxo(outpoint) {
        Some(ordered) => Some(ordered.utxo),
        None => None,
    };
    match chain {
        Some(c) => match c.spec_created_utxo(outpoint) {
            Some(utxo) => Some(utxo),
            None => stored,
        },
        None => stored,
    }
}

/// The block that `hash_or_height` names, if it is in the chain or in the
/// store. The chain is asked first.
pub fn block<'a>(chain: Option<&'a Chain>, db: &'a ZebraDb, hash_or_height: HashOrHeight) -> (r:
    Option<&'a Block>)
    ensures
        spec_option_deref(r) == spec_read_block(chain, db, hash_or_height),
{
    let in_chain = match chain {
        Some(c) => c.block(hash_or_height),
        None => None,
    };
    match in_chain {
        Some(contextual) => Some(&contextual.block),
        None => db.block(hash_or_height),
    }
}

/// The header of the block that `hash_or_height` names, if the block is in
/// the chain or in the store. The chain is asked first.
pub fn block_header(chain: Option<&Chain>, db: &ZebraDb, hash_or_height: HashOrHeight) -> (r:
    Option<Header>)
    ensures
        r == match spec_read_block(chain, db, hash_or_height) {
            Some(found) => Some(found.header),
            None => None,
        },
{
    let in_chain = match chain {
        Some(c) => c.block(hash_or_height),
        None => None,
    };
    match in_chain {
        Some(contextual) => Some(contextual.block.header),
        None => db.block_header(hash_or_height),
    }
}

/// The transaction with the hash `hash` and the height of its block, if it
/// is in the chain or in the store. The chain is asked first.
pub fn transaction<'a>(chain: Option<&'a Chain>, db: &'a ZebraDb, hash: transaction::Hash) -> (r:
    Option<(&'a Transaction, Height)>)
    ensures
        match r {
            Some((tx, height)) => spec_read_transaction(chain, db, hash) == Some((*tx, height)),
            None => spec_read_transaction(chain, db, hash) is None,
        },
{
    let in_chain = match chain {
        Some(c) => c.transaction(&hash),
        None => None,
    };
    match in_chain {
        Some(found) => Some(found),
        None => db.transaction(&hash),
    }
}

/// The output that `outpoint` names, if the chain made it or the store holds
/// it unspent.
///
/// An output that the chain made is returned whether or not the chain spent
/// it. An output of the store is returned where the store holds it unspent,
/// whether or not the chain spent it.
pub fn utxo(chain: Option<&Chain>, db: &ZebraDb, outpoint: OutPoint) -> (r: Option<Utxo>)
    ensures
        spec_owned_view(r) == spec_read_utxo(chain, db, outpoint),
{
    let in_chain = match chain {
        Some(c) => c.created_utxo(&outpoint),
        None => None,
    };
    match in_chain {
        Some(found) => Some(found),
        None => match db.utxos.get(&outpoint) {
            Some(ordered) => Some(ordered.utxo.clone()),
            None => None,
        },
    }
}

/// The output that `outpoint` names, if the chain made it or the store holds
/// it unspent, and the chain did not spend it.
pub fn unspent_utxo(chain: Option<&Chain>, db: &ZebraDb, outpoint: OutPoint) -> (r: Option<Utxo>)
    ensures
        spec_owned_view(r) == match chain {
            Some(c) => if c.spent_utxos@.contains(outpoint) {
                None
            } else {
                spec_read_utxo(chain, db, outpoint)
            },
            None => spec_read_utxo(chain, db, outpoint),
        },
{
    match chain {
        Some(c) => if c.has_spent(&outpoint) {
            None
        } else {
            utxo(chain, db, outpoint)
        },
        None => utxo(chain, db, outpoint),
    }
}

} // verus!
