//! The builder's own changes to the transactions of a template: the coinbase
//! input of the first, and the target of each notarisation from the third on.
use vstd::prelude::*;
use crate::block::{self, Height};
use crate::komodo_nota::{
    lemma_encode_decodes, spec_decode_error, spec_decodes_to, spec_encode, spec_u32_le,
    BackNotarisationData, BackNotarisationView, NOTA_FIXED_LEN, NOTA_VERSION_TAG,
};
use crate::serialization::{copy_bytes, DateTime32};
use crate::transaction::{self, LockTime, Transaction, TransactionView};
use crate::transparent::{
    inputs_view, CoinbaseData, Input, InputView, OrderedUtxo, OrderedUtxoView, OutPoint, Output,
    OutputView, Script, Utxo, UtxoView, GENESIS_COINBASE_DATA,
};
use crate::utxo_set::{entries_view, UtxoEntryView};

verus! {

/// Why no chain could be built.
#[derive(Clone, Copy, Debug, PartialEq, Eq, Structural)]
pub enum BuildError {
    /// A block above height 0 was to be built and no block stands one height
    /// below it.
    MissingPreviousBlock,
    /// The first transaction of the template has no input, or, above height 0,
    /// its first input is no coinbase input.
    MalformedCoinbase,
    /// A notarisation was to be pointed at its target and the block holds no
    /// second transaction to fund it.
    MissingFundingTransaction,
    /// A notarisation has a coinbase input.
    NotarisationSpendsCoinbase,
    /// An input of a notarisation names an output that the funding
    /// transaction does not have.
    FundingOutputOutOfRange,
}

/// The coinbase payload of the first transaction of the block at `height`:
/// the genesis payload at height 0, else the template's payload followed by
/// the branch tag. `None` where the template's first input cannot give one.
pub open spec fn spec_coinbase_data(tx: TransactionView, height: Height, branch_id: Seq<u8>)
    -> Option<Seq<u8>> {
    if tx.inputs.len() == 0 {
        None
    } else if height.0 == 0 {
        Some(GENESIS_COINBASE_DATA@)
    } else {
        match tx.inputs[0] {
            InputView::Coinbase { data, .. } => Some(data + branch_id),
            InputView::PrevOut { .. } => None,
        }
    }
}

/// The template's first transaction as it stands in the block at `height`:
/// its inputs are one coinbase input with that height, the payload of
/// [`spec_coinbase_data`] and the greatest sequence number.
pub open spec fn spec_fix_coinbase(tx: TransactionView, height: Height, branch_id: Seq<u8>)
    -> Result<TransactionView, BuildError> {
    match spec_coinbase_data(tx, height, branch_id) {
        None => Err(BuildError::MalformedCoinbase),
        Some(data) => Ok(
            TransactionView {
                inputs: seq![InputView::Coinbase { height, data, sequence: u32::MAX }],
                ..tx
            },
        ),
    }
}

/// Whether the last output of `tx` carries a back-notarisation record.
pub open spec fn spec_carries_nota(tx: TransactionView) -> bool {
    tx.outputs.len() > 0 && spec_decode_error(tx.outputs.last().lock_script) is None
}

/// The bytes of a record with the target replaced and the payload kept.
pub open spec fn spec_retargeted_script(
    script: Seq<u8>,
    target_height: Height,
    target_hash: block::Hash,
) -> Seq<u8> {
    seq![NOTA_VERSION_TAG] + spec_u32_le(target_height.0) + target_hash.0@ + script.subrange(
        NOTA_FIXED_LEN as int,
        script.len() as int,
    )
}

/// `tx` with the record in its last output pointed at another block.
pub open spec fn spec_retarget_nota(
    tx: TransactionView,
    target_height: Height,
    target_hash: block::Hash,
) -> TransactionView {
    TransactionView {
        outputs: tx.outputs.update(
            tx.outputs.len() - 1,
            OutputView {
                value: tx.outputs.last().value,
                lock_script: spec_retargeted_script(
                    tx.outputs.last().lock_script,
                    target_height,
                    target_hash,
                ),
            },
        ),
        ..tx
    }
}

/// The unspent output that stands for what `input` spends, as if the funding
/// transaction of the same block had made it.
pub open spec fn spec_known_utxo(
    input: InputView,
    funding: TransactionView,
    funding_hash: transaction::Hash,
    height: Height,
) -> Result<UtxoEntryView, BuildError> {
    match input {
        InputView::Coinbase { .. } => Err(BuildError::NotarisationSpendsCoinbase),
        InputView::PrevOut { outpoint, .. } => if outpoint.index < funding.outputs.len() {
            Ok(
                (
                    OutPoint { hash: funding_hash, index: outpoint.index },
                    OrderedUtxoView {
                        utxo: UtxoView {
                            output: funding.outputs[outpoint.index as int],
                            height,
                            from_coinbase: false,
                            lock_time: LockTime(0),
                        },
                        tx_index_in_block: 1,
                    },
                ),
            )
        } else {
            Err(BuildError::FundingOutputOutOfRange)
        },
    }
}

/// The unspent outputs that stand for what the inputs spend, one for each
/// input and in their order, or the error of the first input that has none.
pub open spec fn spec_known_utxos(
    inputs: Seq<InputView>,
    funding: TransactionView,
    funding_hash: transaction::Hash,
    height: Height,
) -> Result<Seq<UtxoEntryView>, BuildError>
    decreases inputs.len(),
{
    if inputs.len() == 0 {
        Ok(Seq::empty())
    } else {
        match spec_known_utxos(inputs.drop_last(), funding, funding_hash, height) {
            Err(e) => Err(e),
            Ok(earlier) => match spec_known_utxo(inputs.last(), funding, funding_hash, height) {
                Err(e) => Err(e),
                Ok(entry) => Ok(earlier.push(entry)),
            },
        }
    }
}

/// What is fixed while one block is built.
pub struct BlockSetting {
    /// The bytes that follow the template's coinbase payload.
    pub branch_id: Seq<u8>,
    /// The height of the block.
    pub height: Height,
    /// The time of the block before, if there is one.
    pub previous_block_time: Option<DateTime32>,
    /// The hash of the block two below, if there is one: the block that the
    /// notarisations of this block point at.
    pub target: Option<block::Hash>,
}

/// The builder's own changes to the transaction at `index` of the template,
/// and what each input is taken to spend where a notarisation was pointed at
/// its target.
///
/// The first transaction gets its coinbase input rebuilt. From the third on,
/// a transaction that carries a record is pointed at the block two below,
/// where there is one. Every other transaction stays as it is.
pub open spec fn spec_prepare(
    setting: BlockSetting,
    index: int,
    tx: TransactionView,
    funding: Option<(TransactionView, transaction::Hash)>,
) -> Result<(TransactionView, Option<Seq<UtxoEntryView>>), BuildError> {
    if index == 0 {
        match spec_fix_coinbase(tx, setting.height, setting.branch_id) {
            Err(e) => Err(e),
            Ok(fixed) => Ok((fixed, None)),
        }
    } else if index >= 2 && setting.target is Some && spec_carries_nota(tx) {
        match funding {
            None => Err(BuildError::MissingFundingTransaction),
            Some((funding_tx, funding_hash)) => match spec_known_utxos(
                tx.inputs,
                funding_tx,
                funding_hash,
                setting.height,
            ) {
                Err(e) => Err(e),
                Ok(known) => Ok(
                    (
                        spec_retarget_nota(
                            tx,
                            Height((setting.height.0 - 2) as u32),
                            setting.target->Some_0,
                        ),
                        Some(known),
                    ),
                ),
            },
        }
    } else {
        Ok((tx, None))
    }
}

/// Rebuilds the coinbase input of the first transaction of a block.
///
/// At height 0 the payload is the genesis payload; above, it is the
/// template's payload followed by `branch_id`. Fails where the transaction
/// has no input, and above height 0 where its first input is no coinbase
/// input.
pub fn fix_coinbase(tx: Transaction, height: Height, branch_id: &[u8]) -> (r: Result<
    Transaction,
    BuildError,
>)
    ensures
        match r {
            Ok(fixed) => spec_fix_coinbase(tx@, height, branch_id@) == Ok::<
                TransactionView,
                BuildError,
            >(fixed@),
            Err(e) => spec_fix_coinbase(tx@, height, branch_id@) == Err::<
                TransactionView,
                BuildError,
            >(e),
        },
{
    let Transaction { version, inputs, outputs, lock_time, expiry_height } = tx;
    if inputs.len() == 0 {
        return Err(BuildError::MalformedCoinbase);
    }
    let mut data: Vec<u8> = Vec::new();
    if height.0 == 0 {
        let mut i: usize = 0;
        while i < 77
            invariant
                i <= 77,
                data@ == GENESIS_COINBASE_DATA@.subrange(0, i as int),
            decreases 77 - i,
        {
            data.push(GENESIS_COINBASE_DATA[i]);
            i = i + 1;
        }
        assert(GENESIS_COINBASE_DATA@.subrange(0, 77) == GENESIS_COINBASE_DATA@);
    } else {
        match &inputs[0] {
            Input::Coinbase { height: _, data: template_data, sequence: _ } => {
                data = copy_bytes(&template_data.0);
                let mut i: usize = 0;
                while i < branch_id.len()
                    invariant
                        i <= branch_id.len(),
                        data@ == template_data@ + branch_id@.subrange(0, i as int),
                    decreases branch_id.len() - i,
                {
                    data.push(branch_id[i]);
                    i = i + 1;
                }
                assert(branch_id@.subrange(0, branch_id.len() as int) == branch_id@);
            },
            Input::PrevOut { .. } => {
                return Err(BuildError::MalformedCoinbase);
            },
        }
    }
    let mut new_inputs: Vec<Input> = Vec::new();
    new_inputs.push(Input::Coinbase { height, data: CoinbaseData(data), sequence: u32::MAX });
    let fixed = Transaction { version, inputs: new_inputs, outputs, lock_time, expiry_height };
    assert(fixed@.inputs =~= seq![
        InputView::Coinbase { height, data: data@, sequence: u32::MAX },
    ]);
    Ok(fixed)
}

/// Points the record in the last output of `tx`, if it carries one, at the
/// block with height `target_height` and hash `target_hash`.
///
/// Returns the transaction and whether it carries a record. Only the height
/// and the hash of the record change; a transaction without a record comes
/// back as it was.
pub fn retarget_nota(tx: Transaction, target_height: Height, target_hash: block::Hash) -> (r: (
    Transaction,
    bool,
))
    ensures
        r.1 == spec_carries_nota(tx@),
        r.0@ == if spec_carries_nota(tx@) {
            spec_retarget_nota(tx@, target_height, target_hash)
        } else {
            tx@
        },
{
    let Transaction { version, inputs, mut outputs, lock_time, expiry_height } = tx;
    if outputs.len() == 0 {
        return (Transaction { version, inputs, outputs, lock_time, expiry_height }, false);
    }
    let ghost before = outputs@;
    let last_index: usize = outputs.len() - 1;
    let raw = outputs[last_index].lock_script.as_raw_bytes();
    let raw_len: usize = raw.len();
    let decoded = BackNotarisationData::decode(raw);
    match decoded {
        Err(_) => (Transaction { version, inputs, outputs, lock_time, expiry_height }, false),
        Ok(nota) => {
            let patched = nota.patch(target_height, target_hash);
            assert(patched@.payload.len() + NOTA_FIXED_LEN == raw_len);
            let new_opret = patched.encode();
            let last = outputs.pop().unwrap();
            let new_last = Output { value: last.value, lock_script: Script::new(new_opret.as_slice()) };
            outputs.push(new_last);
            let fixed = Transaction { version, inputs, outputs, lock_time, expiry_height };
            proof {
                let script = before.last()@.lock_script;
                assert(new_opret@ =~= spec_retargeted_script(script, target_height, target_hash));
                assert(fixed@.outputs =~= spec_retarget_nota(
                    tx@,
                    target_height,
                    target_hash,
                ).outputs);
            }
            (fixed, true)
        },
    }
}

/// Makes, for each input of a notarisation, the unspent output that the
/// input is taken to spend: the output of the funding transaction at the
/// input's index, made at `height` by the second transaction of the block,
/// not by a coinbase, and unlocked.
///
/// Fails at the first input that is a coinbase input or names an output
/// that the funding transaction does not have.
pub fn known_utxos_from_funding(
    inputs: &Vec<Input>,
    funding: &Transaction,
    funding_hash: transaction::Hash,
    height: Height,
) -> (r: Result<Vec<(OutPoint, OrderedUtxo)>, BuildError>)
    ensures
        match r {
            Ok(known) => spec_known_utxos(inputs_view(inputs@), funding@, funding_hash, height)
                == Ok::<Seq<UtxoEntryView>, BuildError>(entries_view(known@)),
            Err(e) => spec_known_utxos(inputs_view(inputs@), funding@, funding_hash, height)
                == Err::<Seq<UtxoEntryView>, BuildError>(e),
        },
{
    let mut known: Vec<(OutPoint, OrderedUtxo)> = Vec::new();
    let mut i: usize = 0;
    assert(inputs_view(inputs@).subrange(0, 0) =~= Seq::<InputView>::empty());
    assert(entries_view(known@) =~= Seq::<UtxoEntryView>::empty());
    while i < inputs.len()
        invariant
            i <= inputs.len(),
            spec_known_utxos(
                inputs_view(inputs@).subrange(0, i as int),
                funding@,
                funding_hash,
                height,
            ) == Ok::<Seq<UtxoEntryView>, BuildError>(entries_view(known@)),
        decreases inputs.len() - i,
    {
        let ghost so_far = inputs_view(inputs@).subrange(0, i as int);
        let ghost next = inputs_view(inputs@).subrange(0, i + 1);
        proof {
            assert(next.drop_last() =~= so_far);
            assert(next.last() == inputs@[i as int]@);
        }
        match &inputs[i] {
            Input::Coinbase { .. } => {
                proof {
                    lemma_known_utxos_error_stays(
                        inputs_view(inputs@),
                        i + 1,
                        funding@,
                        funding_hash,
                        height,
                    );
                }
                return Err(BuildError::NotarisationSpendsCoinbase);
            },
            Input::PrevOut { outpoint, unlock_script: _, sequence: _ } => {
                let index: usize = outpoint.index as usize;
                if index >= funding.outputs.len() {
                    proof {
                        lemma_known_utxos_error_stays(
                            inputs_view(inputs@),
                            i + 1,
                            funding@,
                            funding_hash,
                            height,
                        );
                    }
                    return Err(BuildError::FundingOutputOutOfRange);
                }
                let new_outpoint = OutPoint { hash: funding_hash, index: outpoint.index };
                let output = funding.outputs[index].clone();
                let utxo = Utxo {
                    output,
                    height,
                    from_coinbase: false,
                    lock_time: LockTime::unlocked(),
                };
                let ghost earlier = entries_view(known@);
                known.push((new_outpoint, OrderedUtxo { utxo, tx_index_in_block: 1 }));
                proof {
                    assert(entries_view(known@) =~= earlier.push(
                        spec_known_utxo(inputs@[i as int]@, funding@, funding_hash, height)->Ok_0,
                    ));
                }
            },
        }
        i = i + 1;
    }
    assert(inputs_view(inputs@).subrange(0, inputs.len() as int) =~= inputs_view(inputs@));
    Ok(known)
}

/// An input without a known unspent output fails the whole run of inputs.
pub proof fn lemma_known_utxos_error_stays(
    inputs: Seq<InputView>,
    n: int,
    funding: TransactionView,
    funding_hash: transaction::Hash,
    height: Height,
)
    requires
        0 <= n <= inputs.len(),
        spec_known_utxos(inputs.subrange(0, n), funding, funding_hash, height) is Err,
    ensures
        spec_known_utxos(inputs, funding, funding_hash, height) == spec_known_utxos(
            inputs.subrange(0, n),
            funding,
            funding_hash,
            height,
        ),
    decreases inputs.len() - n,
{
    if n < inputs.len() {
        assert(inputs.subrange(0, n + 1).drop_last() =~= inputs.subrange(0, n));
        lemma_known_utxos_error_stays(inputs, n + 1, funding, funding_hash, height);
    } else {
        assert(inputs.subrange(0, n) =~= inputs);
    }
}

/// Whether the inputs have known unspent outputs does not depend on the hash
/// of the funding transaction, and where they have none the error says which
/// input is at fault.
pub proof fn lemma_known_utxos_error_any_hash(
    inputs: Seq<InputView>,
    funding: TransactionView,
    hash_1: transaction::Hash,
    hash_2: transaction::Hash,
    height: Height,
)
    ensures
        spec_known_utxos(inputs, funding, hash_1, height) matches Err(e) ==> spec_known_utxos(
            inputs,
            funding,
            hash_2,
            height,
        ) == Err::<Seq<UtxoEntryView>, BuildError>(e),
        spec_known_utxos(inputs, funding, hash_1, height) is Ok ==> spec_known_utxos(
            inputs,
            funding,
            hash_2,
            height,
        ) is Ok,
        spec_known_utxos(inputs, funding, hash_1, height) matches Err(e) ==> e
            == BuildError::NotarisationSpendsCoinbase || e == BuildError::FundingOutputOutOfRange,
    decreases inputs.len(),
{
    if inputs.len() > 0 {
        lemma_known_utxos_error_any_hash(inputs.drop_last(), funding, hash_1, hash_2, height);
    }
}

/// Known unspent outputs are one for each input.
pub proof fn lemma_known_utxos_len(
    inputs: Seq<InputView>,
    funding: TransactionView,
    funding_hash: transaction::Hash,
    height: Height,
)
    ensures
        spec_known_utxos(inputs, funding, funding_hash, height) matches Ok(known) ==> known.len()
            == inputs.len(),
    decreases inputs.len(),
{
    if inputs.len() > 0 {
        lemma_known_utxos_len(inputs.drop_last(), funding, funding_hash, height);
    }
}

/// A notarisation that was pointed at its target names that target and
/// keeps its payload: the record in the last output decodes to the target
/// height, the target hash and the payload of the record that was there.
pub proof fn lemma_retargeted_nota(
    tx: TransactionView,
    target_height: Height,
    target_hash: block::Hash,
)
    requires
        spec_carries_nota(tx),
    ensures
        spec_carries_nota(spec_retarget_nota(tx, target_height, target_hash)),
        spec_decodes_to(
            spec_retarget_nota(tx, target_height, target_hash).outputs.last().lock_script,
            BackNotarisationView {
                notarised_height: target_height,
                notarised_block_hash: target_hash,
                payload: tx.outputs.last().lock_script.subrange(
                    NOTA_FIXED_LEN as int,
                    tx.outputs.last().lock_script.len() as int,
                ),
            },
        ),
        spec_retarget_nota(tx, target_height, target_hash).inputs == tx.inputs,
        spec_retarget_nota(tx, target_height, target_hash).outputs.len() == tx.outputs.len(),
        forall|i: int|
            0 <= i < tx.outputs.len() - 1 ==> spec_retarget_nota(
                tx,
                target_height,
                target_hash,
            ).outputs[i] == tx.outputs[i],
{
    let record = BackNotarisationView {
        notarised_height: target_height,
        notarised_block_hash: target_hash,
        payload: tx.outputs.last().lock_script.subrange(
            NOTA_FIXED_LEN as int,
            tx.outputs.last().lock_script.len() as int,
        ),
    };
    lemma_encode_decodes(record);
    assert(spec_encode(record) == spec_retargeted_script(
        tx.outputs.last().lock_script,
        target_height,
        target_hash,
    ));
}

/// In the block at height `h` with a block two below, every transaction of
/// the template from the third on that carries a record is handed to the
/// fixup with that record pointing at height `h - 2` and at the hash of the
/// block two below, and with one known unspent output for each of its
/// inputs.
pub proof fn lemma_prepared_nota_target(
    setting: BlockSetting,
    index: int,
    tx: TransactionView,
    funding: Option<(TransactionView, transaction::Hash)>,
)
    requires
        index >= 2,
        setting.target is Some,
        setting.height.0 >= 2,
        spec_carries_nota(tx),
        spec_prepare(setting, index, tx, funding) is Ok,
    ensures
        spec_decodes_to(
            spec_prepare(setting, index, tx, funding)->Ok_0.0.outputs.last().lock_script,
            BackNotarisationView {
                notarised_height: Height((setting.height.0 - 2) as u32),
                notarised_block_hash: setting.target->Some_0,
                payload: tx.outputs.last().lock_script.subrange(
                    NOTA_FIXED_LEN as int,
                    tx.outputs.last().lock_script.len() as int,
                ),
            },
        ),
        spec_prepare(setting, index, tx, funding)->Ok_0.1 is Some,
        spec_prepare(setting, index, tx, funding)->Ok_0.1->Some_0.len() == tx.inputs.len(),
{
    lemma_retargeted_nota(tx, Height((setting.height.0 - 2) as u32), setting.target->Some_0);
    lemma_known_utxos_len(tx.inputs, funding->Some_0.0, funding->Some_0.1, setting.height);
}

/// Without a block two below, which is so at heights 0 and 1, and for every
/// transaction that carries no record, the builder hands the transactions
/// after the first to the fixup as the template has them.
pub proof fn lemma_prepare_leaves_alone(
    setting: BlockSetting,
    index: int,
    tx: TransactionView,
    funding: Option<(TransactionView, transaction::Hash)>,
)
    requires
        index >= 1,
        setting.target is None || index == 1 || !spec_carries_nota(tx),
    ensures
        spec_prepare(setting, index, tx, funding) == Ok::<
            (TransactionView, Option<Seq<UtxoEntryView>>),
            BuildError,
        >((tx, None)),
{
}

} // verus!
