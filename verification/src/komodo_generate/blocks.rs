//! One block: the transactions of the template go through the builder's own
//! changes and the fixup, one after the other, and the header is sealed over
//! those that the fixup kept.
use vstd::prelude::*;
use crate::block::{self, Block, BlockView, Header, Height, Root};
use crate::komodo_generate::collaborators::{
    ChainCollaborators, FixupRequest, FixupRequestView, FixupResult, FixupResultView,
};
use crate::komodo_generate::transactions::{
    fix_coinbase, known_utxos_from_funding, lemma_known_utxos_error_any_hash,
    lemma_prepared_nota_target, retarget_nota, spec_carries_nota, spec_coinbase_data,
    spec_prepare, BlockSetting, BuildError,
};
use crate::komodo_nota::{spec_decodes_to, BackNotarisationView, NOTA_FIXED_LEN};
use crate::parameters::{genesis_previous_block_hash, spec_genesis_previous_block_hash, Network};
use crate::serialization::DateTime32;
use crate::transaction::{self, transactions_view, Transaction, TransactionView};
use crate::transparent::{OrderedUtxo, OutPoint};
use crate::utxo_set::{UtxoEntryView, UtxoSet};
use crate::value_balance::ValueBalance;
use crate::views::{spec_option_view, spec_owned_view};

verus! {

/// The number of seconds between a built block and the block before it.
pub const BLOCK_SPACING_SECONDS: u32 = 60;

/// What one block is built from.
pub struct BlockInputs {
    /// The bytes that follow the template's coinbase payload.
    pub branch_id: Seq<u8>,
    /// The block that the new block is made from.
    pub template: BlockView,
    /// The height of the new block.
    pub height: Height,
    /// The block one below, if the chain has one.
    pub previous: Option<BlockView>,
    /// The block two below, if the chain has one.
    pub previous_2: Option<BlockView>,
    /// The value pools of the chain before the block.
    pub chain_value_pools: ValueBalance,
    /// The unspent outputs of the chain before the block.
    pub utxos: Seq<UtxoEntryView>,
}

/// A block that was built, with the state of the chain after it.
#[derive(Debug, PartialEq, Eq)]
pub struct BuiltBlock {
    pub block: Block,
    pub chain_value_pools: ValueBalance,
    pub utxos: UtxoSet,
}

/// What a [`BuiltBlock`] holds.
pub struct BuiltBlockView {
    pub block: BlockView,
    pub chain_value_pools: ValueBalance,
    pub utxos: Seq<UtxoEntryView>,
}

impl View for BuiltBlock {
    type V = BuiltBlockView;

    open spec fn view(&self) -> BuiltBlockView {
        BuiltBlockView {
            block: self.block@,
            chain_value_pools: self.chain_value_pools,
            utxos: self.utxos@,
        }
    }
}

/// What the builder holds of a block while it goes through the template's
/// transactions.
#[derive(Debug, PartialEq, Eq)]
pub struct BlockProgress {
    /// The value pools of the chain after the transactions so far.
    pub chain_value_pools: ValueBalance,
    /// The unspent outputs of the chain after the transactions so far.
    pub utxos: UtxoSet,
    /// The transactions that the fixup kept, in order.
    pub transactions: Vec<Transaction>,
    /// The second transaction of the template as the fixup returned it: the
    /// transaction that funds the notarisations after it.
    pub funding: Option<Transaction>,
}

/// What a [`BlockProgress`] holds.
pub struct BlockProgressView {
    pub chain_value_pools: ValueBalance,
    pub utxos: Seq<UtxoEntryView>,
    pub transactions: Seq<TransactionView>,
    pub funding: Option<TransactionView>,
}

impl View for BlockProgress {
    type V = BlockProgressView;

    open spec fn view(&self) -> BlockProgressView {
        BlockProgressView {
            chain_value_pools: self.chain_value_pools,
            utxos: self.utxos@,
            transactions: transactions_view(self.transactions@),
            funding: spec_owned_view(self.funding),
        }
    }
}

/// Whether some transaction of the template, from the third on, carries a
/// back-notarisation record.
pub open spec fn spec_any_nota(template: Seq<TransactionView>) -> bool {
    exists|j: int| 2 <= j < template.len() && spec_carries_nota(#[trigger] template[j])
}

/// The progress after the fixup answered for the transaction at `index`,
/// where `transactions` were kept before and `funding` was the funding
/// transaction: the state of the chain is what the fixup returned, a
/// transaction that it returned is kept, and the second one of the template
/// is remembered as the funding transaction.
pub open spec fn spec_absorb(
    transactions: Seq<TransactionView>,
    funding: Option<TransactionView>,
    index: int,
    result: FixupResultView,
) -> BlockProgressView {
    BlockProgressView {
        chain_value_pools: result.chain_value_pools,
        utxos: result.utxos,
        transactions: match result.transaction {
            Some(tx) => transactions.push(tx),
            None => transactions,
        },
        funding: match result.transaction {
            Some(tx) => if index == 1 {
                Some(tx)
            } else {
                funding
            },
            None => funding,
        },
    }
}

/// The progress before the first transaction of a block.
pub open spec fn spec_block_start(chain_value_pools: ValueBalance, utxos: Seq<UtxoEntryView>)
    -> BlockProgressView {
    BlockProgressView { chain_value_pools, utxos, transactions: Seq::empty(), funding: None }
}

/// The header of a built block: the template's header with the merkle root
/// of the kept transactions, and, above height 0, with the hash of the block
/// before and a time [`BLOCK_SPACING_SECONDS`] after it; at height 0, with
/// the genesis previous hash and the template's time.
pub open spec fn spec_sealed_header(
    template: Header,
    height: Height,
    merkle_root: Root,
    previous: Option<(block::Hash, DateTime32)>,
) -> Header {
    if height.0 > 0 && previous is Some {
        Header {
            merkle_root,
            previous_block_hash: previous->Some_0.0,
            time: DateTime32 {
                timestamp: (previous->Some_0.1.timestamp + BLOCK_SPACING_SECONDS) as u32,
            },
            ..template
        }
    } else {
        Header { merkle_root, previous_block_hash: spec_genesis_previous_block_hash(), ..template }
    }
}

/// Whether the fields of a header that the builder leaves alone are those of
/// the template.
pub open spec fn spec_header_kept(template: Header, built: Header) -> bool {
    &&& built.version == template.version
    &&& built.commitment_bytes == template.commitment_bytes
    &&& built.difficulty_threshold == template.difficulty_threshold
    &&& built.nonce == template.nonce
}

impl BlockProgress {
    /// The progress before the first transaction of a block.
    pub fn start(chain_value_pools: ValueBalance, utxos: UtxoSet) -> (r: BlockProgress)
        ensures
            r@ == spec_block_start(chain_value_pools, utxos@),
            r.transactions@.len() == 0,
    {
        let r = BlockProgress {
            chain_value_pools,
            utxos,
            transactions: Vec::new(),
            funding: None,
        };
        assert(r@.transactions =~= Seq::<TransactionView>::empty());
        r
    }
}

/// Takes in what the fixup answered for the transaction at `index` of the
/// template: the state of the chain that it returned, and the transaction if
/// it returned one. `transactions` are those kept before and `funding` is
/// the funding transaction so far.
pub fn absorb(
    transactions: Vec<Transaction>,
    funding: Option<Transaction>,
    index: usize,
    result: FixupResult,
) -> (r: BlockProgress)
    ensures
        r@ == spec_absorb(
            transactions_view(transactions@),
            spec_owned_view(funding),
            index as int,
            result@,
        ),
        r.transactions.len() <= transactions.len() + 1,
        r.transactions.len() >= transactions.len(),
{
    let FixupResult { transaction, chain_value_pools, utxos } = result;
    let mut kept = transactions;
    let mut funding = funding;
    let ghost earlier = transactions_view(kept@);
    match transaction {
        Some(fixed) => {
            if index == 1 {
                funding = Some(fixed.clone());
            }
            kept.push(fixed);
            assert(transactions_view(kept@) =~= earlier.push(fixed@));
        },
        None => {},
    }
    BlockProgress { chain_value_pools, utxos, transactions: kept, funding }
}

/// Seals the header of a block over its transactions: the template's header
/// with `merkle_root` and, above height 0 with a block one below, with the
/// hash of that block and a time [`BLOCK_SPACING_SECONDS`] after its time;
/// else with the genesis previous hash and the template's time.
///
/// `previous` is the hash and the time of the block one below.
pub fn seal_header(
    template: &Header,
    height: Height,
    merkle_root: Root,
    previous: Option<(block::Hash, DateTime32)>,
) -> (r: Header)
    requires
        height.0 > 0 && previous is Some ==> previous->Some_0.1.timestamp + BLOCK_SPACING_SECONDS
            <= u32::MAX,
    ensures
        r == spec_sealed_header(*template, height, merkle_root, previous),
{
    match previous {
        Some((previous_block_hash, previous_time)) => if height.0 > 0 {
            Header {
                version: template.version,
                previous_block_hash,
                merkle_root,
                commitment_bytes: template.commitment_bytes,
                time: DateTime32 { timestamp: previous_time.timestamp + BLOCK_SPACING_SECONDS },
                difficulty_threshold: template.difficulty_threshold,
                nonce: template.nonce,
            }
        } else {
            Header {
                version: template.version,
                previous_block_hash: genesis_previous_block_hash(),
                merkle_root,
                commitment_bytes: template.commitment_bytes,
                time: template.time,
                difficulty_threshold: template.difficulty_threshold,
                nonce: template.nonce,
            }
        },
        None => Header {
            version: template.version,
            previous_block_hash: genesis_previous_block_hash(),
            merkle_root,
            commitment_bytes: template.commitment_bytes,
            time: template.time,
            difficulty_threshold: template.difficulty_threshold,
            nonce: template.nonce,
        },
    }
}

impl<BH, TH, MR, F, C> ChainCollaborators<BH, TH, MR, F, C> where
    BH: Fn(&Block) -> block::Hash,
    TH: Fn(&Transaction) -> transaction::Hash,
    MR: Fn(&Vec<Transaction>) -> Root,
    F: Fn(FixupRequest, &C) -> FixupResult,
 {
    /// What the fixup answers for the transaction at `index` of the template
    /// after the builder's own changes, or the error of those changes.
    pub open spec fn spec_process(
        &self,
        setting: BlockSetting,
        index: int,
        tx: TransactionView,
        chain_value_pools: ValueBalance,
        utxos: Seq<UtxoEntryView>,
        funding: Option<TransactionView>,
    ) -> Result<FixupResultView, BuildError> {
        let funding_with_hash = match funding {
            Some(f) => Some((f, self.spec_transaction_hash(f))),
            None => None,
        };
        match spec_prepare(setting, index, tx, funding_with_hash) {
            Err(e) => Err(e),
            Ok((prepared, known_utxos)) => Ok(
                self.spec_fixup(
                    FixupRequestView {
                        network: Network::Testnet,
                        transaction: prepared,
                        tx_index_in_block: index as usize,
                        height: setting.height,
                        previous_block_time: setting.previous_block_time,
                        chain_value_pools,
                        utxos,
                        known_utxos,
                    },
                ),
            ),
        }
    }

    /// The progress after the transaction at `index` of the template.
    pub open spec fn spec_step(
        &self,
        setting: BlockSetting,
        index: int,
        tx: TransactionView,
        progress: BlockProgressView,
    ) -> Result<BlockProgressView, BuildError> {
        match self.spec_process(
            setting,
            index,
            tx,
            progress.chain_value_pools,
            progress.utxos,
            progress.funding,
        ) {
            Err(e) => Err(e),
            Ok(result) => Ok(spec_absorb(progress.transactions, progress.funding, index, result)),
        }
    }

    /// The progress after the first `n` transactions of the template.
    pub open spec fn spec_transactions(
        &self,
        setting: BlockSetting,
        template: Seq<TransactionView>,
        n: nat,
        start: BlockProgressView,
    ) -> Result<BlockProgressView, BuildError>
        decreases n,
    {
        if n == 0 {
            Ok(start)
        } else {
            match self.spec_transactions(setting, template, (n - 1) as nat, start) {
                Err(e) => Err(e),
                Ok(progress) => self.spec_step(setting, n - 1, template[n - 1], progress),
            }
        }
    }

    /// What is fixed while a block is built: the time of the block one
    /// below, and the hash of the block two below as the target of the
    /// notarisations.
    pub open spec fn spec_block_setting(&self, inputs: BlockInputs) -> BlockSetting {
        BlockSetting {
            branch_id: inputs.branch_id,
            height: inputs.height,
            previous_block_time: match inputs.previous {
                Some(b) => Some(b.header.time),
                None => None,
            },
            target: match inputs.previous_2 {
                Some(b) => Some(self.spec_block_hash(b)),
                None => None,
            },
        }
    }

    /// The progress through the block after the first `n` transactions of
    /// the template.
    pub open spec fn spec_block_progress(&self, inputs: BlockInputs, n: nat) -> Result<
        BlockProgressView,
        BuildError,
    > {
        self.spec_transactions(
            self.spec_block_setting(inputs),
            inputs.template.transactions,
            n,
            spec_block_start(inputs.chain_value_pools, inputs.utxos),
        )
    }

    /// The block that is built, and the state of the chain after it.
    ///
    /// Above height 0 a block needs a block one below. The transactions of
    /// the block are those that the fixup kept. The header is
    /// [`spec_sealed_header`] over them.
    pub open spec fn spec_block(&self, inputs: BlockInputs) -> Result<BuiltBlockView, BuildError> {
        if inputs.height.0 > 0 && inputs.previous is None {
            Err(BuildError::MissingPreviousBlock)
        } else {
            match self.spec_block_progress(inputs, inputs.template.transactions.len()) {
                Err(e) => Err(e),
                Ok(progress) => Ok(
                    BuiltBlockView {
                        block: BlockView {
                            header: spec_sealed_header(
                                inputs.template.header,
                                inputs.height,
                                self.spec_merkle_root(progress.transactions),
                                match inputs.previous {
                                    Some(b) => Some((self.spec_block_hash(b), b.header.time)),
                                    None => None,
                                },
                            ),
                            transactions: progress.transactions,
                        },
                        chain_value_pools: progress.chain_value_pools,
                        utxos: progress.utxos,
                    },
                ),
            }
        }
    }

    /// The transactions of the template go through one after the other: where
    /// the first `m` went through, so did the first `n` of them.
    pub proof fn lemma_transactions_went_through(
        &self,
        setting: BlockSetting,
        template: Seq<TransactionView>,
        n: nat,
        m: nat,
        start: BlockProgressView,
    )
        requires
            n <= m,
            self.spec_transactions(setting, template, m, start) is Ok,
        ensures
            self.spec_transactions(setting, template, n, start) is Ok,
        decreases m - n,
    {
        if n < m {
            self.lemma_transactions_went_through(setting, template, n, (m - 1) as nat, start);
        }
    }

    /// An error at one transaction of the template is the error of the block.
    pub proof fn lemma_transactions_error_stays(
        &self,
        setting: BlockSetting,
        template: Seq<TransactionView>,
        n: nat,
        m: nat,
        start: BlockProgressView,
    )
        requires
            n <= m,
            self.spec_transactions(setting, template, n, start) is Err,
        ensures
            self.spec_transactions(setting, template, m, start) == self.spec_transactions(
                setting,
                template,
                n,
                start,
            ),
        decreases m - n,
    {
        if n < m {
            self.lemma_transactions_error_stays(setting, template, n, (m - 1) as nat, start);
        }
    }

    /// In a block that was built on a block two below, at height 2 or above,
    /// every transaction of the template from the third on that carries a
    /// record is handed to the fixup with the record pointing two below: at
    /// the height of the block less 2 and at the hash of the block two below.
    /// The payload of the record is that of the template, and the fixup is
    /// handed one known unspent output for each input of the transaction.
    pub proof fn lemma_notarisations_point_two_below(&self, inputs: BlockInputs, j: int)
        requires
            self.spec_block(inputs) is Ok,
            inputs.previous_2 is Some,
            inputs.height.0 >= 2,
            2 <= j < inputs.template.transactions.len(),
            spec_carries_nota(inputs.template.transactions[j]),
        ensures
            ({
                let progress = self.spec_block_progress(inputs, j as nat);
                let prepared = spec_prepare(
                    self.spec_block_setting(inputs),
                    j,
                    inputs.template.transactions[j],
                    match progress->Ok_0.funding {
                        Some(f) => Some((f, self.spec_transaction_hash(f))),
                        None => None,
                    },
                );
                let script = inputs.template.transactions[j].outputs.last().lock_script;
                &&& progress is Ok
                &&& prepared is Ok
                &&& spec_decodes_to(
                    prepared->Ok_0.0.outputs.last().lock_script,
                    BackNotarisationView {
                        notarised_height: Height((inputs.height.0 - 2) as u32),
                        notarised_block_hash: self.spec_block_hash(inputs.previous_2->Some_0),
                        payload: script.subrange(NOTA_FIXED_LEN as int, script.len() as int),
                    },
                )
                &&& prepared->Ok_0.1 is Some
                &&& prepared->Ok_0.1->Some_0.len() == inputs.template.transactions[j].inputs.len()
            }),
    {
        let setting = self.spec_block_setting(inputs);
        let start = spec_block_start(inputs.chain_value_pools, inputs.utxos);
        let template = inputs.template.transactions;
        self.lemma_transactions_went_through(setting, template, (j + 1) as nat, template.len(), start);
        self.lemma_transactions_went_through(setting, template, j as nat, (j + 1) as nat, start);
        let progress = self.spec_transactions(setting, template, j as nat, start)->Ok_0;
        let funding = match progress.funding {
            Some(f) => Some((f, self.spec_transaction_hash(f))),
            None => None,
        };
        assert(self.spec_step(setting, j, template[j], progress) is Ok);
        lemma_prepared_nota_target(setting, j, template[j], funding);
    }

    /// The header of a block that was built is sealed: at height 0 it names
    /// the genesis previous hash and has the template's time; above, it
    /// names the hash of the block one below and is
    /// [`BLOCK_SPACING_SECONDS`] later than it. Its merkle root is that of
    /// the transactions of the block.
    pub proof fn lemma_block_is_sealed(&self, inputs: BlockInputs)
        requires
            self.spec_block(inputs) is Ok,
        ensures
            ({
                let built = self.spec_block(inputs)->Ok_0.block;
                &&& built.header.merkle_root == self.spec_merkle_root(built.transactions)
                &&& spec_header_kept(inputs.template.header, built.header)
                &&& inputs.height.0 == 0 ==> {
                    &&& built.header.previous_block_hash == spec_genesis_previous_block_hash()
                    &&& built.header.time == inputs.template.header.time
                }
                &&& inputs.height.0 > 0 ==> {
                    &&& inputs.previous is Some
                    &&& built.header.previous_block_hash == self.spec_block_hash(
                        inputs.previous->Some_0,
                    )
                    &&& built.header.time.timestamp == (
                    inputs.previous->Some_0.header.time.timestamp + BLOCK_SPACING_SECONDS) as u32
                }
            }),
    {
    }

    /// Takes the transaction at `index` of the template through the
    /// builder's own changes and hands it to the fixup.
    ///
    /// `funding` is the second transaction of the block as the fixup returned
    /// it, if it returned one. Whatever the collaborators answer: the call
    /// fails on a malformed coinbase exactly where [`spec_coinbase_data`] has
    /// no payload for the first transaction, and fails otherwise only on a
    /// notarisation that was to be pointed at its target. Where the
    /// collaborators are functions, the result is that of
    /// [`Self::spec_process`].
    pub fn process_transaction(
        &self,
        tx: Transaction,
        index: usize,
        height: Height,
        branch_id: &[u8],
        previous_block_time: Option<DateTime32>,
        target: Option<block::Hash>,
        chain_value_pools: ValueBalance,
        utxos: UtxoSet,
        funding: Option<&Transaction>,
    ) -> (r: Result<FixupResult, BuildError>)
        requires
            self.spec_total(),
            target is Some ==> height.0 >= 2,
        ensures
            (r matches Err(BuildError::MalformedCoinbase)) <==> (index == 0 && spec_coinbase_data(
                tx@,
                height,
                branch_id@,
            ) is None),
            !(r matches Err(BuildError::MissingPreviousBlock)),
            r is Err ==> (r matches Err(BuildError::MalformedCoinbase)) || (index >= 2 && target
                is Some && spec_carries_nota(tx@)),
            self.spec_functional() ==> match r {
                Ok(result) => self.spec_process(
                    BlockSetting { branch_id: branch_id@, height, previous_block_time, target },
                    index as int,
                    tx@,
                    chain_value_pools,
                    utxos@,
                    spec_option_view(funding),
                ) == Ok::<FixupResultView, BuildError>(result@),
                Err(e) => self.spec_process(
                    BlockSetting { branch_id: branch_id@, height, previous_block_time, target },
                    index as int,
                    tx@,
                    chain_value_pools,
                    utxos@,
                    spec_option_view(funding),
                ) == Err::<FixupResultView, BuildError>(e),
            },
    {
        let mut known_utxos: Option<Vec<(OutPoint, OrderedUtxo)>> = None;
        let prepared: Transaction;
        if index == 0 {
            match fix_coinbase(tx, height, branch_id) {
                Err(e) => {
                    return Err(e);
                },
                Ok(fixed) => {
                    prepared = fixed;
                },
            }
        } else if index >= 2 && target.is_some() {
            let target_hash = target.unwrap();
            let (retargeted, carries) = retarget_nota(tx, Height(height.0 - 2), target_hash);
            if carries {
                match funding {
                    None => {
                        return Err(BuildError::MissingFundingTransaction);
                    },
                    Some(funding_tx) => {
                        let funding_hash = self.hash_transaction(funding_tx);
                        assert(retargeted@.inputs == tx@.inputs);
                        match known_utxos_from_funding(
                            &retargeted.inputs,
                            funding_tx,
                            funding_hash,
                            height,
                        ) {
                            Err(e) => {
                                proof {
                                    lemma_known_utxos_error_any_hash(
                                        tx@.inputs,
                                        funding_tx@,
                                        funding_hash,
                                        self.spec_transaction_hash(funding_tx@),
                                        height,
                                    );
                                }
                                return Err(e);
                            },
                            Ok(known) => {
                                known_utxos = Some(known);
                            },
                        }
                    },
                }
            }
            prepared = retargeted;
        } else {
            prepared = tx;
        }
        let request = FixupRequest {
            network: Network::Testnet,
            transaction: prepared,
            tx_index_in_block: index,
            height,
            previous_block_time,
            chain_value_pools,
            utxos,
            known_utxos,
        };
        let result = self.fix_transaction(request);
        Ok(result)
    }

    /// Builds the block at `height` from `template`.
    ///
    /// `previous` is the block one below and `previous_2` the block two
    /// below, where the chain has them. Each transaction of the template goes
    /// through [`Self::process_transaction`], in order, each with the state
    /// of the chain that the fixup returned for the one before; those that
    /// the fixup returns make up the block. The header is the template's with
    /// the merkle root of those transactions and, above height 0, with the
    /// hash of `previous` and a time [`BLOCK_SPACING_SECONDS`] after it; at
    /// height 0 it has the genesis previous hash and the template's time.
    ///
    /// Whatever the collaborators answer: the call fails for want of a
    /// previous block exactly above height 0 without `previous`, on a
    /// malformed coinbase exactly where the template's first transaction has
    /// no coinbase payload to give, and otherwise only where there is a
    /// block two below and the template carries a notarisation; and a block
    /// that comes back is linked as said. Where the collaborators are
    /// functions, the result is that of [`Self::spec_block`].
    pub fn build_block(
        &self,
        branch_id: &[u8],
        template: &Block,
        height: Height,
        previous: Option<&Block>,
        previous_2: Option<&Block>,
        chain_value_pools: ValueBalance,
        utxos: UtxoSet,
    ) -> (r: Result<BuiltBlock, BuildError>)
        requires
            self.spec_total(),
            previous_2 is Some ==> height.0 >= 2,
            height.0 > 0 && previous is Some ==> previous->Some_0.header.time.timestamp
                + BLOCK_SPACING_SECONDS <= u32::MAX,
        ensures
            (r matches Err(BuildError::MissingPreviousBlock)) <==> (height.0 > 0 && previous
                is None),
            (r matches Err(BuildError::MalformedCoinbase)) <==> (!(height.0 > 0 && previous
                is None) && template@.transactions.len() > 0 && spec_coinbase_data(
                template@.transactions[0],
                height,
                branch_id@,
            ) is None),
            r is Err ==> (r matches Err(BuildError::MissingPreviousBlock)) || (r matches Err(
                BuildError::MalformedCoinbase,
            )) || (previous_2 is Some && spec_any_nota(template@.transactions)),
            r matches Ok(built) ==> {
                &&& built.block.transactions.len() <= template.transactions.len()
                &&& call_ensures(
                    self.merkle_root,
                    (&built.block.transactions,),
                    built.block.header.merkle_root,
                )
                &&& spec_header_kept(template.header, built.block.header)
                &&& if height.0 > 0 {
                    &&& previous is Some
                    &&& call_ensures(
                        self.block_hash,
                        (previous->Some_0,),
                        built.block.header.previous_block_hash,
                    )
                    &&& built.block.header.time.timestamp
                        == previous->Some_0.header.time.timestamp + BLOCK_SPACING_SECONDS
                } else {
                    &&& built.block.header.previous_block_hash
                        == spec_genesis_previous_block_hash()
                    &&& built.block.header.time == template.header.time
                }
            },
            self.spec_functional() ==> match r {
                Ok(built) => self.spec_block(
                    spec_block_inputs(
                        branch_id,
                        template,
                        height,
                        previous,
                        previous_2,
                        chain_value_pools,
                        utxos,
                    ),
                ) == Ok::<BuiltBlockView, BuildError>(built@),
                Err(e) => self.spec_block(
                    spec_block_inputs(
                        branch_id,
                        template,
                        height,
                        previous,
                        previous_2,
                        chain_value_pools,
                        utxos,
                    ),
                ) == Err::<BuiltBlockView, BuildError>(e),
            },
    {
        if height.0 > 0 && previous.is_none() {
            return Err(BuildError::MissingPreviousBlock);
        }
        let previous_block_time: Option<DateTime32> = match previous {
            Some(b) => Some(b.header.time),
            None => None,
        };
        let target: Option<block::Hash> = match previous_2 {
            Some(b) => Some(self.hash_block(b)),
            None => None,
        };
        let ghost setting = BlockSetting {
            branch_id: branch_id@,
            height,
            previous_block_time,
            target,
        };
        let ghost start = spec_block_start(chain_value_pools, utxos@);
        let ghost template_txs = template@.transactions;
        let mut progress = BlockProgress::start(chain_value_pools, utxos);
        let mut j: usize = 0;
        while j < template.transactions.len()
            invariant
                j <= template.transactions.len(),
                self.spec_total(),
                target is Some ==> height.0 >= 2,
                target is Some <==> previous_2 is Some,
                !(height.0 > 0 && previous is None),
                template_txs == template@.transactions,
                previous_block_time == (match previous {
                    Some(b) => Some(b.header.time),
                    None => None,
                }),
                self.spec_functional() ==> target == (match previous_2 {
                    Some(b) => Some(self.spec_block_hash(b@)),
                    None => None,
                }),
                start == spec_block_start(chain_value_pools, utxos@),
                setting == (BlockSetting {
                    branch_id: branch_id@,
                    height,
                    previous_block_time,
                    target,
                }),
                progress.transactions.len() <= j,
                j > 0 ==> spec_coinbase_data(template_txs[0], height, branch_id@) is Some,
                self.spec_functional() ==> self.spec_transactions(
                    setting,
                    template_txs,
                    j as nat,
                    start,
                ) == Ok::<BlockProgressView, BuildError>(progress@),
            decreases template.transactions.len() - j,
        {
            let tx = template.transactions[j].clone();
            assert(tx@ == template_txs[j as int]);
            let ghost before = progress@;
            let BlockProgress { chain_value_pools: pools, utxos: unspent, transactions: kept, funding } =
                progress;
            let answer = self.process_transaction(
                tx,
                j,
                height,
                branch_id,
                previous_block_time,
                target,
                pools,
                unspent,
                funding.as_ref(),
            );
            match answer {
                Err(e) => {
                    proof {
                        if self.spec_functional() {
                            assert(self.spec_transactions(
                                setting,
                                template_txs,
                                (j + 1) as nat,
                                start,
                            ) == Err::<BlockProgressView, BuildError>(e));
                            self.lemma_transactions_error_stays(
                                setting,
                                template_txs,
                                (j + 1) as nat,
                                template_txs.len(),
                                start,
                            );
                        }
                        if e != BuildError::MalformedCoinbase {
                            assert(2 <= j < template_txs.len() && spec_carries_nota(
                                template_txs[j as int],
                            ));
                        }
                    }
                    return Err(e);
                },
                Ok(result) => {
                    progress = absorb(kept, funding, j, result);
                    proof {
                        if self.spec_functional() {
                            assert(self.spec_transactions(
                                setting,
                                template_txs,
                                (j + 1) as nat,
                                start,
                            ) == self.spec_step(setting, j as int, template_txs[j as int], before));
                        }
                    }
                },
            }
            j = j + 1;
        }
        let BlockProgress { chain_value_pools: pools, utxos: unspent, transactions: kept, funding: _ } =
            progress;
        let merkle_root = self.compute_merkle_root(&kept);
        let link: Option<(block::Hash, DateTime32)> = match previous {
            Some(previous_block) => if height.0 > 0 {
                Some((self.hash_block(previous_block), previous_block.header.time))
            } else {
                None
            },
            None => None,
        };
        let header = seal_header(&template.header, height, merkle_root, link);
        Ok(
            BuiltBlock {
                block: Block { header, transactions: kept },
                chain_value_pools: pools,
                utxos: unspent,
            },
        )
    }
}

/// What [`ChainCollaborators::build_block`] builds from, as views.
pub open spec fn spec_block_inputs(
    branch_id: &[u8],
    template: &Block,
    height: Height,
    previous: Option<&Block>,
    previous_2: Option<&Block>,
    chain_value_pools: ValueBalance,
    utxos: UtxoSet,
) -> BlockInputs {
    BlockInputs {
        branch_id: branch_id@,
        template: template@,
        height,
        previous: spec_option_view(previous),
        previous_2: spec_option_view(previous_2),
        chain_value_pools,
        utxos: utxos@,
    }
}

} // verus!
