//! The chain: block after block from a template, each on the blocks below
//! it.
use vstd::prelude::*;
use vstd::string::StringSliceAdditionalSpecFns;
use crate::block::{self, blocks_view, Block, BlockView, Height, Root};
use crate::komodo_generate::blocks::{
    spec_any_nota, spec_header_kept, BlockInputs, BuiltBlock, BLOCK_SPACING_SECONDS,
};
use crate::komodo_generate::collaborators::{ChainCollaborators, FixupRequest, FixupResult};
use crate::komodo_generate::transactions::{spec_coinbase_data, BuildError};
use crate::parameters::spec_genesis_previous_block_hash;
use crate::transaction::{self, Transaction};
use crate::utxo_set::{UtxoEntryView, UtxoSet};
use crate::value_balance::ValueBalance;
use crate::views::{spec_option_deref, spec_owned_view};

verus! {

/// The two blocks that new blocks are made from.
#[derive(Debug, PartialEq, Eq)]
pub struct ChainTemplates {
    /// A block with a coinbase transaction only.
    pub block_cb: Block,
    /// A block that also holds a funding transaction and a notarisation.
    pub block_nota: Block,
}

impl ChainTemplates {
    /// The template for blocks with a notarisation, or for blocks without.
    pub open spec fn spec_pick(&self, block_with_nota: bool) -> Block {
        if block_with_nota {
            self.block_nota
        } else {
            self.block_cb
        }
    }

    /// The template for blocks with a notarisation, or for blocks without.
    pub fn pick(&self, block_with_nota: bool) -> (r: &Block)
        ensures
            *r == self.spec_pick(block_with_nota),
    {
        if block_with_nota {
            &self.block_nota
        } else {
            &self.block_cb
        }
    }
}

/// What a chain is built from.
pub struct ChainInputs {
    /// The bytes that follow the template's coinbase payload.
    pub branch_id: Seq<u8>,
    /// The blocks that are there, each at the height of its position.
    pub start_blocks: Seq<BlockView>,
    /// The block that the new blocks are made from.
    pub template: BlockView,
    /// The height of the first new block.
    pub start_height: Height,
    /// The value pools of the chain before the new blocks.
    pub chain_value_pools: ValueBalance,
    /// The unspent outputs of the chain before the new blocks.
    pub utxos: Seq<UtxoEntryView>,
}

/// What [`komodo_create_partial_chain`] builds from, as views.
pub open spec fn spec_chain_inputs(
    branch_id: &str,
    start_blocks: &Vec<Block>,
    chain_value_pools_in: ValueBalance,
    utxos_in: UtxoSet,
    start_height: Height,
    block_with_nota: bool,
    templates: &ChainTemplates,
) -> ChainInputs {
    ChainInputs {
        branch_id: branch_id.spec_bytes(),
        start_blocks: blocks_view(start_blocks@),
        template: templates.spec_pick(block_with_nota)@,
        start_height,
        chain_value_pools: chain_value_pools_in,
        utxos: utxos_in@,
    }
}

/// What the builder holds of the chain after some of its blocks.
pub struct ChainProgress {
    /// The blocks built so far, lowest first.
    pub blocks: Seq<BlockView>,
    pub chain_value_pools: ValueBalance,
    pub utxos: Seq<UtxoEntryView>,
}

/// The block at `height` of the chain made of `start_blocks`, whose heights
/// are their positions, and of the `built` blocks, whose heights start at
/// `start_height`; none where the chain has no block at that height.
pub open spec fn spec_block_at<B>(
    start_blocks: Seq<B>,
    start_height: Height,
    built: Seq<B>,
    height: int,
) -> Option<B> {
    if height < 0 {
        None
    } else if height >= start_height.0 {
        if height - start_height.0 < built.len() {
            Some(built[height - start_height.0])
        } else {
            None
        }
    } else if height < start_blocks.len() {
        Some(start_blocks[height])
    } else {
        None
    }
}

/// What the new block at position `k` is built from, after the `k` new
/// blocks of `state`: it stands at height `start_height + k`, on the block
/// one below and the block two below of the chain so far.
pub open spec fn spec_next_block_inputs(inputs: ChainInputs, state: ChainProgress, k: int)
    -> BlockInputs {
    let height = inputs.start_height.0 + k;
    BlockInputs {
        branch_id: inputs.branch_id,
        template: inputs.template,
        height: Height(height as u32),
        previous: spec_block_at(inputs.start_blocks, inputs.start_height, state.blocks, height - 1),
        previous_2: spec_block_at(
            inputs.start_blocks,
            inputs.start_height,
            state.blocks,
            height - 2,
        ),
        chain_value_pools: state.chain_value_pools,
        utxos: state.utxos,
    }
}

/// The time of the new block at position `k`, counted from 0: a block at
/// height 0 has the template's time, and every other block is 60 seconds
/// later than the block one below.
pub open spec fn spec_built_time(inputs: ChainInputs, k: int) -> int {
    if inputs.start_height.0 == 0 {
        inputs.template.header.time.timestamp + 60 * k
    } else if inputs.start_height.0 <= inputs.start_blocks.len() {
        inputs.start_blocks[inputs.start_height.0 - 1].header.time.timestamp + 60 * (k + 1)
    } else {
        0
    }
}

/// Whether the times of `block_count` new blocks fit in 32 bits.
pub open spec fn spec_times_fit(inputs: ChainInputs, block_count: u32) -> bool {
    block_count > 0 ==> spec_built_time(inputs, block_count - 1) <= u32::MAX
}

/// Whether the template's first transaction cannot open every block that is
/// to be built: it has no input, or its first input is no coinbase input and
/// a block above height 0 is to be built.
pub open spec fn spec_malformed_coinbase(inputs: ChainInputs, block_count: u32) -> bool {
    &&& inputs.template.transactions.len() > 0
    &&& inputs.template.transactions[0].inputs.len() == 0 || (
    inputs.template.transactions[0].inputs[0] is PrevOut && inputs.start_height.0 + block_count
        > 1)
}

/// Whether the chain has no block for the first new block to stand on.
pub open spec fn spec_missing_previous(inputs: ChainInputs) -> bool {
    inputs.start_height.0 > 0 && inputs.start_blocks.len() < inputs.start_height.0
}

/// Whether `outcome` holds what `expected` names: the same error, or blocks
/// that hold the same.
pub open spec fn spec_is_outcome(
    expected: Result<Seq<BlockView>, BuildError>,
    outcome: Result<Vec<Block>, BuildError>,
) -> bool {
    match outcome {
        Ok(blocks) => expected == Ok::<Seq<BlockView>, BuildError>(blocks_view(blocks@)),
        Err(e) => expected == Err::<Seq<BlockView>, BuildError>(e),
    }
}

impl<BH, TH, MR, F, C> ChainCollaborators<BH, TH, MR, F, C> where
    BH: Fn(&Block) -> block::Hash,
    TH: Fn(&Transaction) -> transaction::Hash,
    MR: Fn(&Vec<Transaction>) -> Root,
    F: Fn(FixupRequest, &C) -> FixupResult,
 {
    /// The chain after `k` new blocks, or the error of the first block that
    /// could not be built.
    pub open spec fn spec_chain_state(&self, inputs: ChainInputs, k: nat) -> Result<
        ChainProgress,
        BuildError,
    >
        decreases k,
    {
        if k == 0 {
            Ok(
                ChainProgress {
                    blocks: Seq::empty(),
                    chain_value_pools: inputs.chain_value_pools,
                    utxos: inputs.utxos,
                },
            )
        } else {
            match self.spec_chain_state(inputs, (k - 1) as nat) {
                Err(e) => Err(e),
                Ok(state) => match self.spec_block(spec_next_block_inputs(inputs, state, k - 1)) {
                    Err(e) => Err(e),
                    Ok(built) => Ok(
                        ChainProgress {
                            blocks: state.blocks.push(built.block),
                            chain_value_pools: built.chain_value_pools,
                            utxos: built.utxos,
                        },
                    ),
                },
            }
        }
    }

    /// The `block_count` new blocks, lowest first.
    pub open spec fn spec_chain(&self, inputs: ChainInputs, block_count: u32) -> Result<
        Seq<BlockView>,
        BuildError,
    > {
        match self.spec_chain_state(inputs, block_count as nat) {
            Err(e) => Err(e),
            Ok(state) => Ok(state.blocks),
        }
    }

    /// Whether the new block at position `k` is linked to the chain: at
    /// height 0 it names the genesis previous hash and has the template's
    /// time; above, it names what the collaborators gave as the hash of the
    /// block one below and is [`BLOCK_SPACING_SECONDS`] later than that
    /// block. Its merkle root is what the collaborators gave for its
    /// transactions, which are no more than the template's, and the rest of
    /// its header is the template's.
    pub open spec fn spec_linked(
        &self,
        start_blocks: Seq<Block>,
        template: Block,
        start_height: Height,
        blocks: Seq<Block>,
        k: int,
    ) -> bool {
        let block = blocks[k];
        let previous = spec_block_at(start_blocks, start_height, blocks, start_height.0 + k - 1);
        &&& block.transactions.len() <= template.transactions.len()
        &&& call_ensures(self.merkle_root, (&block.transactions,), block.header.merkle_root)
        &&& spec_header_kept(template.header, block.header)
        &&& if start_height.0 + k > 0 {
            &&& previous is Some
            &&& call_ensures(
                self.block_hash,
                (&previous->Some_0,),
                block.header.previous_block_hash,
            )
            &&& block.header.time.timestamp == previous->Some_0.header.time.timestamp
                + BLOCK_SPACING_SECONDS
        } else {
            &&& block.header.previous_block_hash == spec_genesis_previous_block_hash()
            &&& block.header.time == template.header.time
        }
    }

    /// An error at one block is the error of the chain.
    pub proof fn lemma_chain_error_stays(&self, inputs: ChainInputs, n: nat, m: nat)
        requires
            n <= m,
            self.spec_chain_state(inputs, n) is Err,
        ensures
            self.spec_chain_state(inputs, m) == self.spec_chain_state(inputs, n),
        decreases m - n,
    {
        if n < m {
            self.lemma_chain_error_stays(inputs, n, (m - 1) as nat);
        }
    }

    /// A chain of `m` new blocks has `m` blocks.
    pub proof fn lemma_chain_len(&self, inputs: ChainInputs, m: nat)
        ensures
            self.spec_chain_state(inputs, m) matches Ok(state) ==> state.blocks.len() == m,
        decreases m,
    {
        if m > 0 {
            self.lemma_chain_len(inputs, (m - 1) as nat);
        }
    }

    /// The chain grows at its end: the first `n` blocks of a chain of `m`
    /// new blocks are the chain of `n` new blocks.
    pub proof fn lemma_chain_grows(&self, inputs: ChainInputs, n: nat, m: nat)
        requires
            n <= m,
            self.spec_chain_state(inputs, m) is Ok,
        ensures
            self.spec_chain_state(inputs, n) matches Ok(shorter) && shorter.blocks
                == self.spec_chain_state(inputs, m)->Ok_0.blocks.subrange(0, n as int),
        decreases m - n,
    {
        let longer = self.spec_chain_state(inputs, m)->Ok_0;
        self.lemma_chain_len(inputs, m);
        if n < m {
            self.lemma_chain_grows(inputs, n, (m - 1) as nat);
            let middle = self.spec_chain_state(inputs, (m - 1) as nat)->Ok_0;
            self.lemma_chain_len(inputs, (m - 1) as nat);
            assert(middle.blocks.subrange(0, n as int) =~= longer.blocks.subrange(0, n as int));
        } else {
            assert(longer.blocks.subrange(0, n as int) =~= longer.blocks);
        }
    }

    /// Every block of a built chain is the block that [`Self::spec_block`]
    /// builds at its height on the blocks below it: the new block at
    /// position `k` stands at height `start_height + k`, on the block one
    /// below and the block two below of the chain that was built, with the
    /// state of the chain after the `k` new blocks before it.
    pub proof fn lemma_chain_block(&self, inputs: ChainInputs, block_count: u32, k: int)
        requires
            0 <= k < block_count,
            self.spec_chain(inputs, block_count) is Ok,
        ensures
            ({
                let blocks = self.spec_chain(inputs, block_count)->Ok_0;
                let before = self.spec_chain_state(inputs, k as nat);
                let height = inputs.start_height.0 + k;
                let block_inputs = spec_next_block_inputs(inputs, before->Ok_0, k);
                &&& blocks.len() == block_count
                &&& before is Ok
                &&& block_inputs.previous == spec_block_at(
                    inputs.start_blocks,
                    inputs.start_height,
                    blocks,
                    height - 1,
                )
                &&& block_inputs.previous_2 == spec_block_at(
                    inputs.start_blocks,
                    inputs.start_height,
                    blocks,
                    height - 2,
                )
                &&& self.spec_block(block_inputs) matches Ok(built) && built.block == blocks[k]
            }),
    {
        let whole = self.spec_chain_state(inputs, block_count as nat)->Ok_0;
        self.lemma_chain_len(inputs, block_count as nat);
        self.lemma_chain_grows(inputs, (k + 1) as nat, block_count as nat);
        self.lemma_chain_grows(inputs, k as nat, block_count as nat);
        let before = self.spec_chain_state(inputs, k as nat)->Ok_0;
        let after = self.spec_chain_state(inputs, (k + 1) as nat)->Ok_0;
        let height = inputs.start_height.0 + k;
        assert(before.blocks == whole.blocks.subrange(0, k));
        assert(after.blocks == whole.blocks.subrange(0, k + 1));
        assert(after.blocks[k] == whole.blocks[k]);
        assert(spec_block_at(inputs.start_blocks, inputs.start_height, before.blocks, height - 1)
            == spec_block_at(inputs.start_blocks, inputs.start_height, whole.blocks, height - 1));
        assert(spec_block_at(inputs.start_blocks, inputs.start_height, before.blocks, height - 2)
            == spec_block_at(inputs.start_blocks, inputs.start_height, whole.blocks, height - 2));
    }

    /// The blocks of a built chain are linked: a block at height 0 names the
    /// genesis previous hash, every block above height 0 names the hash of
    /// the block one below in the chain and is [`BLOCK_SPACING_SECONDS`]
    /// later than it, and the merkle root of every block is that of its
    /// transactions.
    pub proof fn lemma_chain_is_linked(&self, inputs: ChainInputs, block_count: u32, k: int)
        requires
            0 <= k < block_count,
            inputs.start_height.0 + block_count <= u32::MAX,
            self.spec_chain(inputs, block_count) is Ok,
        ensures
            ({
                let blocks = self.spec_chain(inputs, block_count)->Ok_0;
                let height = inputs.start_height.0 + k;
                let previous = spec_block_at(
                    inputs.start_blocks,
                    inputs.start_height,
                    blocks,
                    height - 1,
                );
                &&& blocks.len() == block_count
                &&& blocks[k].header.merkle_root == self.spec_merkle_root(blocks[k].transactions)
                &&& height == 0 ==> blocks[k].header.previous_block_hash
                    == spec_genesis_previous_block_hash()
                &&& height > 0 ==> {
                    &&& previous is Some
                    &&& blocks[k].header.previous_block_hash == self.spec_block_hash(
                        previous->Some_0,
                    )
                    &&& blocks[k].header.time.timestamp == (previous->Some_0.header.time.timestamp
                        + BLOCK_SPACING_SECONDS) as u32
                }
            }),
    {
        self.lemma_chain_block(inputs, block_count, k);
        let before = self.spec_chain_state(inputs, k as nat)->Ok_0;
        self.lemma_block_is_sealed(spec_next_block_inputs(inputs, before, k));
    }

    /// Building twice from the same chain, template and state with
    /// collaborators that are functions gives the same blocks, field for
    /// field and byte for byte, or the same error: both outcomes are the one
    /// that [`Self::spec_chain`] names.
    pub proof fn lemma_replay_is_deterministic(
        &self,
        inputs: ChainInputs,
        block_count: u32,
        first: Result<Vec<Block>, BuildError>,
        second: Result<Vec<Block>, BuildError>,
    )
        requires
            self.spec_functional(),
            spec_is_outcome(self.spec_chain(inputs, block_count), first),
            spec_is_outcome(self.spec_chain(inputs, block_count), second),
        ensures
            first is Ok <==> second is Ok,
            first matches Ok(a) ==> blocks_view(a@) == blocks_view(second->Ok_0@),
            first matches Err(e) ==> second->Err_0 == e,
    {
    }
}

/// The block at `height` of the chain made of `start_blocks` and of the
/// `built` blocks, if the chain has one there.
pub fn block_at<'a>(
    start_blocks: &'a Vec<Block>,
    start_height: Height,
    built: &'a Vec<Block>,
    height: u32,
) -> (r: Option<&'a Block>)
    ensures
        spec_option_deref(r) == spec_block_at(start_blocks@, start_height, built@, height as int),
{
    if height >= start_height.0 {
        let offset: u32 = height - start_height.0;
        if (offset as usize) < built.len() {
            Some(&built[offset as usize])
        } else {
            None
        }
    } else if (height as usize) < start_blocks.len() {
        Some(&start_blocks[height as usize])
    } else {
        None
    }
}

/// Looking a block up among views gives the view of the block looked up.
pub proof fn lemma_block_at_view(
    start_blocks: Seq<Block>,
    start_height: Height,
    built: Seq<Block>,
    height: int,
)
    ensures
        spec_block_at(blocks_view(start_blocks), start_height, blocks_view(built), height)
            == spec_owned_view(spec_block_at(start_blocks, start_height, built, height)),
{
}

/// Builds `block_count` blocks from a template on top of `start_blocks`, from
/// `start_height` up, and returns the new blocks, lowest first.
///
/// The blocks of `start_blocks` stand at the heights of their positions; they
/// are read for linkage and never changed or returned. The template is
/// `templates.block_nota` where `block_with_nota` holds, else
/// `templates.block_cb`. Each new block is built by
/// [`ChainCollaborators::build_block`] on the block one below and the block
/// two below, with the state of the chain after the block before; the first,
/// with `chain_value_pools_in` and `utxos_in`.
///
/// The heights and the times of the new blocks must fit in 32 bits.
///
/// Whatever the collaborators answer:
/// * the call fails for want of a previous block exactly where blocks are to
///   be built above height 0 and `start_blocks` ends below `start_height`;
/// * else it fails on a malformed coinbase exactly where blocks are to be
///   built and [`spec_malformed_coinbase`] holds of the template;
/// * it fails otherwise only where the template carries a notarisation and a
///   block is to be built at height 2 or above;
/// * the blocks that come back are `block_count` and each is linked as
///   [`ChainCollaborators::spec_linked`] says.
///
/// Where the collaborators are functions, the outcome is that of
/// [`ChainCollaborators::spec_chain`].
pub fn komodo_create_partial_chain<BH, TH, MR, F, C>(
    branch_id: &str,
    start_blocks: &Vec<Block>,
    chain_value_pools_in: ValueBalance,
    utxos_in: UtxoSet,
    start_height: Height,
    block_count: u32,
    block_with_nota: bool,
    templates: &ChainTemplates,
    collaborators: &ChainCollaborators<BH, TH, MR, F, C>,
) -> (r: Result<Vec<Block>, BuildError>) where
    BH: Fn(&Block) -> block::Hash,
    TH: Fn(&Transaction) -> transaction::Hash,
    MR: Fn(&Vec<Transaction>) -> Root,
    F: Fn(FixupRequest, &C) -> FixupResult,

    requires
        collaborators.spec_total(),
        start_height.0 + block_count <= u32::MAX,
        spec_times_fit(
            spec_chain_inputs(
                branch_id,
                start_blocks,
                chain_value_pools_in,
                utxos_in,
                start_height,
                block_with_nota,
                templates,
            ),
            block_count,
        ),
    ensures
        (r matches Err(BuildError::MissingPreviousBlock)) <==> (block_count > 0
            && spec_missing_previous(
            spec_chain_inputs(
                branch_id,
                start_blocks,
                chain_value_pools_in,
                utxos_in,
                start_height,
                block_with_nota,
                templates,
            ),
        )),
        (r matches Err(BuildError::MalformedCoinbase)) <==> (block_count > 0
            && !spec_missing_previous(
            spec_chain_inputs(
                branch_id,
                start_blocks,
                chain_value_pools_in,
                utxos_in,
                start_height,
                block_with_nota,
                templates,
            ),
        ) && spec_malformed_coinbase(
            spec_chain_inputs(
                branch_id,
                start_blocks,
                chain_value_pools_in,
                utxos_in,
                start_height,
                block_with_nota,
                templates,
            ),
            block_count,
        )),
        r is Err ==> (r matches Err(BuildError::MissingPreviousBlock)) || (r matches Err(
            BuildError::MalformedCoinbase,
        )) || (start_height.0 + block_count > 2 && spec_any_nota(
            templates.spec_pick(block_with_nota)@.transactions,
        )),
        r matches Ok(blocks) ==> {
            &&& blocks.len() == block_count
            &&& forall|k: int|
                0 <= k < blocks.len() ==> #[trigger] collaborators.spec_linked(
                    start_blocks@,
                    templates.spec_pick(block_with_nota),
                    start_height,
                    blocks@,
                    k,
                )
        },
        collaborators.spec_functional() ==> spec_is_outcome(
            collaborators.spec_chain(
                spec_chain_inputs(
                    branch_id,
                    start_blocks,
                    chain_value_pools_in,
                    utxos_in,
                    start_height,
                    block_with_nota,
                    templates,
                ),
                block_count,
            ),
            r,
        ),
{
    let template = templates.pick(block_with_nota);
    let tag = branch_id.as_bytes();
    let mut built: Vec<Block> = Vec::new();
    let mut pools = chain_value_pools_in;
    let mut unspent = utxos_in;
    let mut k: u32 = 0;
    let ghost inputs = spec_chain_inputs(
        branch_id,
        start_blocks,
        chain_value_pools_in,
        utxos_in,
        start_height,
        block_with_nota,
        templates,
    );
    assert(blocks_view(built@) =~= Seq::<BlockView>::empty());
    while k < block_count
        invariant
            k <= block_count,
            collaborators.spec_total(),
            start_height.0 + block_count <= u32::MAX,
            *template == templates.spec_pick(block_with_nota),
            inputs == spec_chain_inputs(
                branch_id,
                start_blocks,
                chain_value_pools_in,
                utxos_in,
                start_height,
                block_with_nota,
                templates,
            ),
            tag@ == inputs.branch_id,
            spec_times_fit(inputs, block_count),
            built.len() == k,
            k > 0 ==> !spec_missing_previous(inputs),
            k > 0 && template@.transactions.len() > 0 ==> spec_coinbase_data(
                template@.transactions[0],
                Height((start_height.0 + k - 1) as u32),
                tag@,
            ) is Some,
            forall|i: int|
                0 <= i < k ==> (#[trigger] built@[i]).header.time.timestamp == spec_built_time(
                    inputs,
                    i,
                ),
            forall|i: int|
                0 <= i < k ==> #[trigger] collaborators.spec_linked(
                    start_blocks@,
                    *template,
                    start_height,
                    built@,
                    i,
                ),
            collaborators.spec_functional() ==> collaborators.spec_chain_state(inputs, k as nat)
                == Ok::<ChainProgress, BuildError>(
                ChainProgress {
                    blocks: blocks_view(built@),
                    chain_value_pools: pools,
                    utxos: unspent@,
                },
            ),
        decreases block_count - k,
    {
        let height: u32 = start_height.0 + k;
        let previous: Option<&Block> = if height > 0 {
            block_at(start_blocks, start_height, &built, height - 1)
        } else {
            None
        };
        let previous_2: Option<&Block> = if height > 1 {
            block_at(start_blocks, start_height, &built, height - 2)
        } else {
            None
        };
        let ghost before = built@;
        proof {
            lemma_block_at_view(start_blocks@, start_height, built@, height - 1);
            lemma_block_at_view(start_blocks@, start_height, built@, height - 2);
            assert(BLOCK_SPACING_SECONDS == 60);
            if height > 0 && previous is Some {
                if k > 0 {
                    assert(previous->Some_0 == built@[k - 1]);
                    assert(built@[k - 1].header.time.timestamp == spec_built_time(inputs, k - 1));
                } else {
                    assert(previous->Some_0 == start_blocks@[start_height.0 - 1]);
                    assert(inputs.start_blocks[start_height.0 - 1]
                        == start_blocks@[start_height.0 - 1]@);
                }
                assert(previous->Some_0.header.time.timestamp + BLOCK_SPACING_SECONDS
                    == spec_built_time(inputs, k as int));
                assert(spec_built_time(inputs, k as int) <= spec_built_time(
                    inputs,
                    block_count - 1,
                ));
            }
        }
        let answer = collaborators.build_block(
            tag,
            template,
            Height(height),
            previous,
            previous_2,
            pools,
            unspent,
        );
        match answer {
            Err(e) => {
                proof {
                    if collaborators.spec_functional() {
                        assert(collaborators.spec_chain_state(inputs, (k + 1) as nat) == Err::<
                            ChainProgress,
                            BuildError,
                        >(e));
                        collaborators.lemma_chain_error_stays(
                            inputs,
                            (k + 1) as nat,
                            block_count as nat,
                        );
                    }
                }
                return Err(e);
            },
            Ok(made) => {
                let BuiltBlock { block, chain_value_pools: new_pools, utxos: new_unspent } = made;
                pools = new_pools;
                unspent = new_unspent;
                built.push(block);
                proof {
                    assert(blocks_view(built@) =~= blocks_view(before).push(block@));
                    assert forall|i: int| 0 <= i < k + 1 implies #[trigger] collaborators.spec_linked(
                        start_blocks@,
                        *template,
                        start_height,
                        built@,
                        i,
                    ) by {
                        if i < k {
                            assert(collaborators.spec_linked(
                                start_blocks@,
                                *template,
                                start_height,
                                before,
                                i,
                            ));
                            assert(built@[i] == before[i]);
                            assert(spec_block_at(
                                start_blocks@,
                                start_height,
                                built@,
                                start_height.0 + i - 1,
                            ) == spec_block_at(
                                start_blocks@,
                                start_height,
                                before,
                                start_height.0 + i - 1,
                            ));
                        } else {
                            assert(spec_block_at(
                                start_blocks@,
                                start_height,
                                built@,
                                start_height.0 + k - 1,
                            ) == spec_block_at(
                                start_blocks@,
                                start_height,
                                before,
                                start_height.0 + k - 1,
                            ));
                        }
                    }
                }
            },
        }
        k = k + 1;
    }
    Ok(built)
}

} // verus!
