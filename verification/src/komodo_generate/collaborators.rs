//! What the builder takes from its surroundings, and what it may assume of
//! it.
use vstd::prelude::*;
use crate::block::{self, Block, BlockView, Height, Root};
use crate::parameters::Network;
use crate::serialization::DateTime32;
use crate::transaction::{self, transactions_view, Transaction, TransactionView};
use crate::transparent::{OrderedUtxo, OutPoint};
use crate::utxo_set::{entries_view, UtxoEntryView, UtxoSet};
use crate::value_balance::ValueBalance;

verus! {

/// What the builder hands to the fixup for one transaction.
#[derive(Debug, PartialEq, Eq)]
pub struct FixupRequest {
    pub network: Network,
    /// The transaction, after the builder's own changes.
    pub transaction: Transaction,
    pub tx_index_in_block: usize,
    /// The height of the block that is being built.
    pub height: Height,
    /// The time of the block before, if there is one.
    pub previous_block_time: Option<DateTime32>,
    /// The value pools of the chain before this transaction.
    pub chain_value_pools: ValueBalance,
    /// The unspent outputs of the chain before this transaction.
    pub utxos: UtxoSet,
    /// For a notarisation that was pointed at its target: what each of its
    /// inputs is taken to spend.
    pub known_utxos: Option<Vec<(OutPoint, OrderedUtxo)>>,
}

/// What a [`FixupRequest`] holds.
pub struct FixupRequestView {
    pub network: Network,
    pub transaction: TransactionView,
    pub tx_index_in_block: usize,
    pub height: Height,
    pub previous_block_time: Option<DateTime32>,
    pub chain_value_pools: ValueBalance,
    pub utxos: Seq<UtxoEntryView>,
    pub known_utxos: Option<Seq<UtxoEntryView>>,
}

impl View for FixupRequest {
    type V = FixupRequestView;

    open spec fn view(&self) -> FixupRequestView {
        FixupRequestView {
            network: self.network,
            transaction: self.transaction@,
            tx_index_in_block: self.tx_index_in_block,
            height: self.height,
            previous_block_time: self.previous_block_time,
            chain_value_pools: self.chain_value_pools,
            utxos: self.utxos@,
            known_utxos: match self.known_utxos {
                Some(known) => Some(entries_view(known@)),
                None => None,
            },
        }
    }
}

/// What the fixup hands back: the transaction as it goes into the block, or
/// none where the transaction is dropped, and the state of the chain after it.
#[derive(Debug, PartialEq, Eq)]
pub struct FixupResult {
    pub transaction: Option<Transaction>,
    pub chain_value_pools: ValueBalance,
    pub utxos: UtxoSet,
}

/// What a [`FixupResult`] holds.
pub struct FixupResultView {
    pub transaction: Option<TransactionView>,
    pub chain_value_pools: ValueBalance,
    pub utxos: Seq<UtxoEntryView>,
}

impl View for FixupResult {
    type V = FixupResultView;

    open spec fn view(&self) -> FixupResultView {
        FixupResultView {
            transaction: match self.transaction {
                Some(tx) => Some(tx@),
                None => None,
            },
            chain_value_pools: self.chain_value_pools,
            utxos: self.utxos@,
        }
    }
}

/// What the builder takes from its surroundings: the three digests of the
/// chain, the fixup that makes a transaction valid on the chain being built,
/// and the spend check that the builder hands on to the fixup untouched.
pub struct ChainCollaborators<BH, TH, MR, F, C> {
    /// The hash of a block.
    pub block_hash: BH,
    /// The hash of a transaction.
    pub transaction_hash: TH,
    /// The merkle root over the transactions of a block.
    pub merkle_root: MR,
    /// Rewrites one transaction against the state of the chain.
    pub fix_generated_transaction: F,
    /// Decides whether an unspent output may be spent.
    pub check_transparent_coinbase_spend: C,
}

impl<BH, TH, MR, F, C> ChainCollaborators<BH, TH, MR, F, C> where
    BH: Fn(&Block) -> block::Hash,
    TH: Fn(&Transaction) -> transaction::Hash,
    MR: Fn(&Vec<Transaction>) -> Root,
    F: Fn(FixupRequest, &C) -> FixupResult,
 {
    /// Whether each collaborator may be called on every argument.
    pub open spec fn spec_total(&self) -> bool {
        &&& forall|b: &Block| call_requires(self.block_hash, (b,))
        &&& forall|t: &Transaction| call_requires(self.transaction_hash, (t,))
        &&& forall|ts: &Vec<Transaction>| call_requires(self.merkle_root, (ts,))
        &&& forall|request: FixupRequest|
            call_requires(
                self.fix_generated_transaction,
                (request, &self.check_transparent_coinbase_spend),
            )
    }

    /// Whether each collaborator is a function of what its argument holds:
    /// called on arguments with one view, it gives results with one view.
    pub open spec fn spec_functional(&self) -> bool {
        &&& forall|b1: &Block, b2: &Block, h1: block::Hash, h2: block::Hash|
            b1@ == b2@ && #[trigger] call_ensures(self.block_hash, (b1,), h1)
                && #[trigger] call_ensures(self.block_hash, (b2,), h2) ==> h1 == h2
        &&& forall|t1: &Transaction, t2: &Transaction, h1: transaction::Hash, h2: transaction::Hash|
            t1@ == t2@ && #[trigger] call_ensures(self.transaction_hash, (t1,), h1)
                && #[trigger] call_ensures(self.transaction_hash, (t2,), h2) ==> h1 == h2
        &&& forall|ts1: &Vec<Transaction>, ts2: &Vec<Transaction>, r1: Root, r2: Root|
            transactions_view(ts1@) == transactions_view(ts2@) && #[trigger] call_ensures(
                self.merkle_root,
                (ts1,),
                r1,
            ) && #[trigger] call_ensures(self.merkle_root, (ts2,), r2) ==> r1 == r2
        &&& forall|a1: FixupRequest, a2: FixupRequest, r1: FixupResult, r2: FixupResult|
            a1@ == a2@ && #[trigger] call_ensures(
                self.fix_generated_transaction,
                (a1, &self.check_transparent_coinbase_spend),
                r1,
            ) && #[trigger] call_ensures(
                self.fix_generated_transaction,
                (a2, &self.check_transparent_coinbase_spend),
                r2,
            ) ==> r1@ == r2@
    }

    /// The hash that the collaborators give a block that holds `block`.
    pub open spec fn spec_block_hash(&self, block: BlockView) -> block::Hash {
        let (b, h) = choose|b: Block, h: block::Hash|
            b@ == block && #[trigger] call_ensures(self.block_hash, (&b,), h);
        h
    }

    /// The hash that the collaborators give a transaction that holds `tx`.
    pub open spec fn spec_transaction_hash(&self, tx: TransactionView) -> transaction::Hash {
        let (t, h) = choose|t: Transaction, h: transaction::Hash|
            t@ == tx && #[trigger] call_ensures(self.transaction_hash, (&t,), h);
        h
    }

    /// The merkle root that the collaborators give transactions that hold
    /// `transactions`.
    pub open spec fn spec_merkle_root(&self, transactions: Seq<TransactionView>) -> Root {
        let (ts, r) = choose|ts: Vec<Transaction>, r: Root|
            transactions_view(ts@) == transactions && #[trigger] call_ensures(
                self.merkle_root,
                (&ts,),
                r,
            );
        r
    }

    /// What the fixup gives back for a request that holds `request`.
    pub open spec fn spec_fixup(&self, request: FixupRequestView) -> FixupResultView {
        let (a, r) = choose|a: FixupRequest, r: FixupResult|
            a@ == request && #[trigger] call_ensures(
                self.fix_generated_transaction,
                (a, &self.check_transparent_coinbase_spend),
                r,
            );
        r@
    }

    /// Asks for the hash of a block.
    pub fn hash_block(&self, block: &Block) -> (h: block::Hash)
        requires
            self.spec_total(),
        ensures
            call_ensures(self.block_hash, (block,), h),
            self.spec_functional() ==> h == self.spec_block_hash(block@),
    {
        (self.block_hash)(block)
    }

    /// Asks for the hash of a transaction.
    pub fn hash_transaction(&self, tx: &Transaction) -> (h: transaction::Hash)
        requires
            self.spec_total(),
        ensures
            call_ensures(self.transaction_hash, (tx,), h),
            self.spec_functional() ==> h == self.spec_transaction_hash(tx@),
    {
        (self.transaction_hash)(tx)
    }

    /// Asks for the merkle root over the transactions of a block.
    pub fn compute_merkle_root(&self, transactions: &Vec<Transaction>) -> (r: Root)
        requires
            self.spec_total(),
        ensures
            call_ensures(self.merkle_root, (transactions,), r),
            self.spec_functional() ==> r == self.spec_merkle_root(transactions_view(transactions@)),
    {
        (self.merkle_root)(transactions)
    }

    /// Hands one transaction to the fixup, with the spend check.
    pub fn fix_transaction(&self, request: FixupRequest) -> (r: FixupResult)
        requires
            self.spec_total(),
        ensures
            call_ensures(
                self.fix_generated_transaction,
                (request, &self.check_transparent_coinbase_spend),
                r,
            ),
            self.spec_functional() ==> r@ == self.spec_fixup(request@),
    {
        (self.fix_generated_transaction)(request, &self.check_transparent_coinbase_spend)
    }

    /// Where the collaborators are functions, a hash that they gave for a
    /// block is the hash of every block that holds the same.
    pub proof fn lemma_block_hash_is_function(&self, block: Block, hash: block::Hash)
        requires
            self.spec_functional(),
            call_ensures(self.block_hash, (&block,), hash),
        ensures
            hash == self.spec_block_hash(block@),
    {
    }

    /// Where the collaborators are functions, a merkle root that they gave
    /// for some transactions is the root of all transactions that hold the
    /// same.
    pub proof fn lemma_merkle_root_is_function(&self, transactions: Vec<Transaction>, root: Root)
        requires
            self.spec_functional(),
            call_ensures(self.merkle_root, (&transactions,), root),
        ensures
            root == self.spec_merkle_root(transactions_view(transactions@)),
    {
    }
}

} // verus!
