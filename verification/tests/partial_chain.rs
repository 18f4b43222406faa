use komodo_dpow::block::{self, Block, Header, Height, Root};
use komodo_dpow::komodo_generate::{
    absorb, block_at, fix_coinbase, known_utxos_from_funding, komodo_create_partial_chain,
    retarget_nota, seal_header, BlockProgress, BuildError, ChainCollaborators, ChainTemplates,
    FixupRequest, FixupResult, BLOCK_SPACING_SECONDS,
};
use komodo_dpow::komodo_nota::BackNotarisationData;
use komodo_dpow::parameters::{genesis_previous_block_hash, Network};
use komodo_dpow::serialization::DateTime32;
use komodo_dpow::transaction::{self as tx, LockTime, Transaction};
use komodo_dpow::transparent::{
    CoinbaseData, Input, OrderedUtxo, OutPoint, Output, Script, Utxo, GENESIS_COINBASE_DATA,
};
use komodo_dpow::utxo_set::UtxoSet;
use komodo_dpow::value_balance::{Amount, ValueBalance};

// Stand-ins for the digests of the chain.

fn digest(text: &str) -> [u8; 32] {
    let mut lanes: [u64; 4] =
        [0xcbf29ce484222325, 0x84222325cbf29ce4, 0x9e3779b97f4a7c15, 0xc2b2ae3d27d4eb4f];
    for (i, b) in text.bytes().enumerate() {
        let lane = &mut lanes[i % 4];
        *lane ^= b as u64;
        *lane = lane.wrapping_mul(0x100000001b3).rotate_left(5);
    }
    let mut out = [0u8; 32];
    for (i, lane) in lanes.iter().enumerate() {
        let mixed = lane ^ lanes[(i + 1) % 4].rotate_left(17);
        out[i * 8..(i + 1) * 8].copy_from_slice(&mixed.to_le_bytes());
    }
    out
}

fn hash_block(block: &Block) -> block::Hash {
    block::Hash(digest(&format!("{:?}", block.header)))
}

fn hash_transaction(transaction: &Transaction) -> tx::Hash {
    tx::Hash(digest(&format!("{:?}", transaction)))
}

fn merkle_root(transactions: &Vec<Transaction>) -> Root {
    let mut text = String::new();
    for t in transactions {
        text.push_str(&format!("{:?}", hash_transaction(t)));
    }
    Root(digest(&text))
}

// Fixups.

fn keep_all(request: FixupRequest, _check: &u32) -> FixupResult {
    FixupResult {
        transaction: Some(request.transaction),
        chain_value_pools: request.chain_value_pools,
        utxos: request.utxos,
    }
}

fn reject_index_1(request: FixupRequest, check: &u32) -> FixupResult {
    if request.tx_index_in_block == 1 {
        FixupResult {
            transaction: None,
            chain_value_pools: request.chain_value_pools,
            utxos: request.utxos,
        }
    } else {
        keep_all(request, check)
    }
}

fn reject_index_3(request: FixupRequest, check: &u32) -> FixupResult {
    if request.tx_index_in_block == 3 {
        FixupResult {
            transaction: None,
            chain_value_pools: request.chain_value_pools,
            utxos: request.utxos,
        }
    } else {
        keep_all(request, check)
    }
}

/// Spends what the builder says the inputs spend, books every output as
/// unspent and counts the transactions in the transparent pool.
fn spend_known(request: FixupRequest, _check: &u32) -> FixupResult {
    let mut transaction = request.transaction;
    let mut utxos = request.utxos;
    if let Some(known) = request.known_utxos {
        let mut inputs = Vec::new();
        for (input, (outpoint, _)) in transaction.inputs.iter().zip(known.iter()) {
            match input {
                Input::PrevOut { unlock_script, sequence, .. } => inputs.push(Input::PrevOut {
                    outpoint: *outpoint,
                    unlock_script: unlock_script.clone(),
                    sequence: *sequence,
                }),
                Input::Coinbase { .. } => inputs.push(input.clone()),
            }
        }
        transaction.inputs = inputs;
        for (outpoint, _) in known.iter() {
            utxos.remove(outpoint);
        }
    }
    let hash = hash_transaction(&transaction);
    for (index, output) in transaction.outputs.iter().enumerate() {
        utxos.insert(
            OutPoint { hash, index: index as u32 },
            OrderedUtxo {
                utxo: Utxo {
                    output: output.clone(),
                    height: request.height,
                    from_coinbase: request.tx_index_in_block == 0,
                    lock_time: transaction.lock_time,
                },
                tx_index_in_block: request.tx_index_in_block,
            },
        );
    }
    let mut pools = request.chain_value_pools;
    pools.transparent = Amount(pools.transparent.0 + 1);
    FixupResult { transaction: Some(transaction), chain_value_pools: pools, utxos }
}

/// Writes what it was handed into the transaction, for the tests to read.
fn report(request: FixupRequest, check: &u32) -> FixupResult {
    let mut transaction = request.transaction;
    transaction.version = *check;
    transaction.lock_time = LockTime(match request.previous_block_time {
        Some(time) => time.timestamp(),
        None => 0,
    });
    transaction.expiry_height = Height(match &request.known_utxos {
        Some(known) => 1000 + known.len() as u32,
        None => 0,
    });
    assert_eq!(request.network, Network::Testnet);
    FixupResult {
        transaction: Some(transaction),
        chain_value_pools: request.chain_value_pools,
        utxos: request.utxos,
    }
}

/// Books like [`spend_known`] and leaves its counts in the transaction.
fn count(request: FixupRequest, _check: &u32) -> FixupResult {
    let mut result = spend_known(request, &0);
    if let Some(transaction) = result.transaction.as_mut() {
        transaction.version = result.chain_value_pools.transparent.0 as u32;
        transaction.expiry_height = Height(result.utxos.len() as u32);
    }
    result
}

type Fixup = fn(FixupRequest, &u32) -> FixupResult;

fn collaborators(
    fixup: Fixup,
) -> ChainCollaborators<
    fn(&Block) -> block::Hash,
    fn(&Transaction) -> tx::Hash,
    fn(&Vec<Transaction>) -> Root,
    Fixup,
    u32,
> {
    ChainCollaborators {
        block_hash: hash_block,
        transaction_hash: hash_transaction,
        merkle_root,
        fix_generated_transaction: fixup,
        check_transparent_coinbase_spend: 42,
    }
}

// Templates.

fn header(time: u32) -> Header {
    Header {
        version: 4,
        previous_block_hash: block::Hash([0x11; 32]),
        merkle_root: Root([0x22; 32]),
        commitment_bytes: [0x33; 32],
        time: DateTime32::from(time),
        difficulty_threshold: 0x200f0f0f,
        nonce: [0x44; 32],
    }
}

fn coinbase(height: u32) -> Transaction {
    Transaction {
        version: 4,
        inputs: vec![Input::Coinbase {
            height: Height(height),
            data: CoinbaseData(vec![0x01, 0x7e]),
            sequence: 5,
        }],
        outputs: vec![Output { value: Amount(300000000), lock_script: Script::new(&[0x51]) }],
        lock_time: LockTime(0),
        expiry_height: Height(0),
    }
}

fn spend(seed: u8, indexes: &[u32], outputs: Vec<Output>) -> Transaction {
    Transaction {
        version: 4,
        inputs: indexes
            .iter()
            .map(|index| Input::PrevOut {
                outpoint: OutPoint { hash: tx::Hash([seed; 32]), index: *index },
                unlock_script: Script::new(&[seed, 0x01]),
                sequence: u32::MAX,
            })
            .collect(),
        outputs,
        lock_time: LockTime(0),
        expiry_height: Height(0),
    }
}

fn funding() -> Transaction {
    spend(
        0x70,
        &[0],
        vec![
            Output { value: Amount(10000), lock_script: Script::new(&[0x21, 0xaa, 0xac]) },
            Output { value: Amount(20000), lock_script: Script::new(&[0x21, 0xbb, 0xac]) },
            Output { value: Amount(30000), lock_script: Script::new(&[0x21, 0xcc, 0xac]) },
        ],
    )
}

fn template_record() -> BackNotarisationData {
    BackNotarisationData {
        notarised_height: Height(125),
        notarised_block_hash: block::Hash([0x99; 32]),
        payload: b"\x20txid-of-the-notarisation-on-kmd\x00TESTCOIN\x00".to_vec(),
    }
}

fn nota(indexes: &[u32]) -> Transaction {
    spend(
        0x71,
        indexes,
        vec![
            Output { value: Amount(9000), lock_script: Script::new(&[0x21, 0xdd, 0xac]) },
            Output { value: Amount(0), lock_script: Script::new(&template_record().encode()) },
        ],
    )
}

fn plain(seed: u8) -> Transaction {
    spend(seed, &[0], vec![Output { value: Amount(seed as u64), lock_script: Script::new(&[seed]) }])
}

fn templates() -> ChainTemplates {
    ChainTemplates {
        block_cb: Block { header: header(5000), transactions: vec![coinbase(126)] },
        block_nota: Block {
            header: header(6000),
            transactions: vec![coinbase(127), funding(), nota(&[1, 0])],
        },
    }
}

fn prefix(count: u32) -> Vec<Block> {
    (0..count)
        .map(|height| Block {
            header: Header {
                previous_block_hash: block::Hash([height as u8; 32]),
                ..header(100000 + 60 * height)
            },
            transactions: vec![coinbase(height)],
        })
        .collect()
}

fn last_script(transaction: &Transaction) -> &[u8] {
    transaction.outputs.last().expect("an output").lock_script.as_raw_bytes()
}

fn build(
    start_blocks: &Vec<Block>,
    start_height: u32,
    block_count: u32,
    block_with_nota: bool,
    templates: &ChainTemplates,
    fixup: Fixup,
) -> Result<Vec<Block>, BuildError> {
    komodo_create_partial_chain(
        "TESTBRANCH",
        start_blocks,
        ValueBalance::zero(),
        UtxoSet::new(),
        Height(start_height),
        block_count,
        block_with_nota,
        templates,
        &collaborators(fixup),
    )
}

#[test]
fn three_blocks_on_top_of_two() {
    let start_blocks = prefix(2);
    let blocks = build(&start_blocks, 2, 3, true, &templates(), keep_all).expect("a chain");
    assert_eq!(blocks.len(), 3);
    for (k, built) in blocks.iter().enumerate() {
        let height = 2 + k as u32;
        assert_eq!(built.transactions.len(), 3);
        match &built.transactions[0].inputs[0] {
            Input::Coinbase { height: h, .. } => assert_eq!(*h, Height(height)),
            Input::PrevOut { .. } => panic!("no coinbase"),
        }
    }
    // The notarisation at height 4 points at height 2 of the new chain.
    let record = BackNotarisationData::decode(last_script(&blocks[2].transactions[2]))
        .expect("a record");
    assert_eq!(record.notarised_height, Height(2));
    assert_eq!(record.notarised_block_hash, hash_block(&blocks[0]));
    assert_eq!(record.payload, template_record().payload);
    // Those below point into the blocks that were there.
    let record = BackNotarisationData::decode(last_script(&blocks[0].transactions[2]))
        .expect("a record");
    assert_eq!(record.notarised_height, Height(0));
    assert_eq!(record.notarised_block_hash, hash_block(&start_blocks[0]));
    let record = BackNotarisationData::decode(last_script(&blocks[1].transactions[2]))
        .expect("a record");
    assert_eq!(record.notarised_height, Height(1));
    assert_eq!(record.notarised_block_hash, hash_block(&start_blocks[1]));
    // The blocks that were there are as they were.
    assert_eq!(start_blocks, prefix(2));
}

#[test]
fn new_blocks_are_linked() {
    let start_blocks = prefix(2);
    let picked = templates();
    let blocks = build(&start_blocks, 2, 4, true, &picked, keep_all).expect("a chain");
    assert_eq!(blocks[0].header.previous_block_hash, hash_block(&start_blocks[1]));
    for k in 1..blocks.len() {
        assert_eq!(blocks[k].header.previous_block_hash, hash_block(&blocks[k - 1]));
    }
    for built in blocks.iter() {
        assert_eq!(built.header.merkle_root, merkle_root(&built.transactions));
        assert_eq!(built.header.version, picked.block_nota.header.version);
        assert_eq!(built.header.commitment_bytes, picked.block_nota.header.commitment_bytes);
        assert_eq!(built.header.difficulty_threshold, picked.block_nota.header.difficulty_threshold);
        assert_eq!(built.header.nonce, picked.block_nota.header.nonce);
    }
}

#[test]
fn new_blocks_are_sixty_seconds_apart() {
    assert_eq!(BLOCK_SPACING_SECONDS, 60);
    let start_blocks = prefix(2);
    let blocks = build(&start_blocks, 2, 3, false, &templates(), keep_all).expect("a chain");
    // The block at height 1 has the time 100060.
    assert_eq!(blocks[0].header.time, DateTime32::from(100120));
    assert_eq!(blocks[1].header.time, DateTime32::from(100180));
    assert_eq!(blocks[2].header.time, DateTime32::from(100240));
}

#[test]
fn a_chain_from_genesis() {
    let blocks = build(&vec![], 0, 3, false, &templates(), keep_all).expect("a chain");
    assert_eq!(blocks.len(), 3);
    assert_eq!(blocks[0].header.previous_block_hash, genesis_previous_block_hash());
    assert_eq!(blocks[0].header.previous_block_hash, block::Hash([0; 32]));
    // The genesis block keeps the time of the template.
    assert_eq!(blocks[0].header.time, DateTime32::from(5000));
    assert_eq!(blocks[1].header.time, DateTime32::from(5060));
    assert_eq!(blocks[2].header.time, DateTime32::from(5120));
    assert_eq!(blocks[1].header.previous_block_hash, hash_block(&blocks[0]));
    assert_eq!(blocks[2].header.previous_block_hash, hash_block(&blocks[1]));
    // The coinbase of the genesis block has the genesis payload.
    assert_eq!(
        blocks[0].transactions[0].inputs,
        vec![Input::Coinbase {
            height: Height(0),
            data: CoinbaseData(GENESIS_COINBASE_DATA.to_vec()),
            sequence: u32::MAX,
        }]
    );
    // The others have the payload of the template and the branch tag.
    let mut data = vec![0x01, 0x7e];
    data.extend_from_slice(b"TESTBRANCH");
    assert_eq!(
        blocks[1].transactions[0].inputs,
        vec![Input::Coinbase { height: Height(1), data: CoinbaseData(data.clone()), sequence: u32::MAX }]
    );
    assert_eq!(
        blocks[2].transactions[0].inputs,
        vec![Input::Coinbase { height: Height(2), data: CoinbaseData(data), sequence: u32::MAX }]
    );
    // Nothing but the inputs of the coinbase changes.
    assert_eq!(blocks[1].transactions[0].outputs, coinbase(126).outputs);
    assert_eq!(blocks[1].transactions[0].version, 4);
}

#[test]
fn notarisations_at_heights_0_and_1_stay_as_they_are() {
    let picked = templates();
    let blocks = build(&vec![], 0, 2, true, &picked, keep_all).expect("a chain");
    assert_eq!(blocks.len(), 2);
    for built in blocks.iter() {
        assert_eq!(built.transactions.len(), 3);
        assert_eq!(built.transactions[1], picked.block_nota.transactions[1]);
        assert_eq!(built.transactions[2], picked.block_nota.transactions[2]);
        assert_eq!(last_script(&built.transactions[2]), &template_record().encode()[..]);
    }
    // And no unspent outputs are made up for them.
    let blocks = build(&vec![], 0, 2, true, &picked, report).expect("a chain");
    assert_eq!(blocks[0].transactions[2].expiry_height, Height(0));
    assert_eq!(blocks[1].transactions[2].expiry_height, Height(0));
    // Not even where the block has no funding transaction.
    let blocks = build(&vec![], 0, 2, true, &picked, reject_index_1).expect("a chain");
    assert_eq!(blocks[1].transactions.len(), 2);
    assert_eq!(blocks[1].transactions[1], picked.block_nota.transactions[2]);
}

#[test]
fn a_rejected_transaction_is_left_out() {
    let mut picked = templates();
    picked.block_cb.transactions =
        vec![coinbase(126), plain(1), plain(2), plain(3), plain(4)];
    let start_blocks = prefix(1);
    let blocks = build(&start_blocks, 1, 1, false, &picked, reject_index_3).expect("a chain");
    assert_eq!(blocks.len(), 1);
    let built = &blocks[0];
    assert_eq!(built.transactions.len(), 4);
    assert_eq!(built.transactions[1], plain(1));
    assert_eq!(built.transactions[2], plain(2));
    assert_eq!(built.transactions[3], plain(4));
    assert_eq!(built.header.merkle_root, merkle_root(&built.transactions));
    let all = build(&start_blocks, 1, 1, false, &picked, keep_all).expect("a chain");
    assert_eq!(all[0].transactions.len(), 5);
    assert_ne!(all[0].header.merkle_root, built.header.merkle_root);
}

#[test]
fn building_twice_gives_the_same_blocks() {
    let start_blocks = prefix(3);
    let first = build(&start_blocks, 3, 5, true, &templates(), spend_known);
    let second = build(&start_blocks, 3, 5, true, &templates(), spend_known);
    assert!(first.is_ok());
    assert_eq!(first, second);
    let first = build(&start_blocks, 3, 5, true, &templates(), reject_index_1);
    let second = build(&start_blocks, 3, 5, true, &templates(), reject_index_1);
    assert_eq!(first, Err(BuildError::MissingFundingTransaction));
    assert_eq!(first, second);
}

#[test]
fn the_fixup_is_told_the_time_before_and_gets_the_check() {
    let start_blocks = prefix(2);
    let blocks = build(&start_blocks, 2, 2, true, &templates(), report).expect("a chain");
    for built in blocks.iter() {
        for transaction in built.transactions.iter() {
            assert_eq!(transaction.version, 42);
        }
    }
    assert_eq!(blocks[0].transactions[0].lock_time, LockTime(100060));
    assert_eq!(blocks[0].transactions[2].lock_time, LockTime(100060));
    assert_eq!(blocks[1].transactions[1].lock_time, LockTime(100120));
    // Unspent outputs are made up for the notarisation only: one for each input.
    assert_eq!(blocks[0].transactions[0].expiry_height, Height(0));
    assert_eq!(blocks[0].transactions[1].expiry_height, Height(0));
    assert_eq!(blocks[0].transactions[2].expiry_height, Height(1002));
    // At height 0 there is no block before.
    let blocks = build(&vec![], 0, 1, false, &templates(), report).expect("a chain");
    assert_eq!(blocks[0].transactions[0].lock_time, LockTime(0));
}

#[test]
fn a_notarisation_spends_the_funding_transaction() {
    let start_blocks = prefix(2);
    let result = komodo_create_partial_chain(
        "TESTBRANCH",
        &start_blocks,
        ValueBalance::zero(),
        UtxoSet::new(),
        Height(2),
        2,
        true,
        &templates(),
        &collaborators(spend_known),
    );
    let blocks = result.expect("a chain");
    for built in blocks.iter() {
        let funding_hash = hash_transaction(&built.transactions[1]);
        let expected: Vec<OutPoint> = vec![
            OutPoint { hash: funding_hash, index: 1 },
            OutPoint { hash: funding_hash, index: 0 },
        ];
        let spent: Vec<OutPoint> = built.transactions[2]
            .inputs
            .iter()
            .map(|input| match input {
                Input::PrevOut { outpoint, .. } => *outpoint,
                Input::Coinbase { .. } => panic!("a coinbase input"),
            })
            .collect();
        assert_eq!(spent, expected);
    }
}

#[test]
fn known_utxos_are_the_outputs_of_the_funding_transaction() {
    let funding = funding();
    let hash = tx::Hash([0x5a; 32]);
    let known = known_utxos_from_funding(&nota(&[2, 0, 2]).inputs, &funding, hash, Height(9))
        .expect("known outputs");
    assert_eq!(known.len(), 3);
    for (entry, index) in known.iter().zip([2u32, 0, 2]) {
        assert_eq!(entry.0, OutPoint { hash, index });
        assert_eq!(
            entry.1,
            OrderedUtxo {
                utxo: Utxo {
                    output: funding.outputs[index as usize].clone(),
                    height: Height(9),
                    from_coinbase: false,
                    lock_time: LockTime::unlocked(),
                },
                tx_index_in_block: 1,
            }
        );
    }
    assert_eq!(known_utxos_from_funding(&vec![], &funding, hash, Height(9)), Ok(vec![]));
    assert_eq!(
        known_utxos_from_funding(&nota(&[0, 3]).inputs, &funding, hash, Height(9)),
        Err(BuildError::FundingOutputOutOfRange)
    );
    assert_eq!(
        known_utxos_from_funding(&coinbase(1).inputs, &funding, hash, Height(9)),
        Err(BuildError::NotarisationSpendsCoinbase)
    );
    // The first input at fault decides.
    let mut inputs = nota(&[7]).inputs;
    inputs.extend(coinbase(1).inputs);
    assert_eq!(
        known_utxos_from_funding(&inputs, &funding, hash, Height(9)),
        Err(BuildError::FundingOutputOutOfRange)
    );
}

#[test]
fn the_state_goes_from_one_fixup_to_the_next() {
    let start_blocks = prefix(1);
    let mut counted = templates();
    counted.block_cb.transactions = vec![coinbase(126), plain(1)];
    let blocks = build(&start_blocks, 1, 3, false, &counted, count).expect("a chain");
    assert_eq!(blocks[0].transactions[0].version, 1);
    assert_eq!(blocks[0].transactions[1].version, 2);
    assert_eq!(blocks[1].transactions[0].version, 3);
    assert_eq!(blocks[2].transactions[1].version, 6);
    // Every transaction has one output, and each is booked as unspent. The
    // second transaction is the same in every block, and so is its outpoint.
    assert_eq!(blocks[0].transactions[0].expiry_height, Height(1));
    assert_eq!(blocks[0].transactions[1].expiry_height, Height(2));
    assert_eq!(blocks[1].transactions[1].expiry_height, Height(3));
    assert_eq!(blocks[2].transactions[1].expiry_height, Height(4));
}

#[test]
fn no_block_to_stand_on() {
    assert_eq!(
        build(&prefix(1), 2, 1, false, &templates(), keep_all),
        Err(BuildError::MissingPreviousBlock)
    );
    assert_eq!(
        build(&vec![], 1, 3, true, &templates(), keep_all),
        Err(BuildError::MissingPreviousBlock)
    );
    // Nothing to build, nothing missing.
    assert_eq!(build(&vec![], 5, 0, true, &templates(), keep_all), Ok(vec![]));
    // It comes before a malformed coinbase.
    let mut picked = templates();
    picked.block_cb.transactions[0] = plain(1);
    assert_eq!(
        build(&prefix(1), 2, 1, false, &picked, keep_all),
        Err(BuildError::MissingPreviousBlock)
    );
}

#[test]
fn blocks_above_the_start_are_not_read() {
    let longer = prefix(4);
    let exact = prefix(2);
    assert_eq!(
        build(&longer, 2, 3, true, &templates(), keep_all),
        build(&exact, 2, 3, true, &templates(), keep_all)
    );
}

#[test]
fn a_first_transaction_that_is_no_coinbase() {
    let mut picked = templates();
    picked.block_cb.transactions[0] = plain(1);
    assert_eq!(
        build(&prefix(1), 1, 1, false, &picked, keep_all),
        Err(BuildError::MalformedCoinbase)
    );
    // At height 0 any first input will do.
    let blocks = build(&vec![], 0, 1, false, &picked, keep_all).expect("a chain");
    assert_eq!(
        blocks[0].transactions[0].inputs,
        vec![Input::Coinbase {
            height: Height(0),
            data: CoinbaseData(GENESIS_COINBASE_DATA.to_vec()),
            sequence: u32::MAX,
        }]
    );
    // But not for the block after.
    assert_eq!(
        build(&vec![], 0, 2, false, &picked, keep_all),
        Err(BuildError::MalformedCoinbase)
    );
    // A first transaction without inputs will never do.
    picked.block_cb.transactions[0].inputs = vec![];
    assert_eq!(
        build(&vec![], 0, 1, false, &picked, keep_all),
        Err(BuildError::MalformedCoinbase)
    );
    // A template without transactions makes blocks without.
    picked.block_cb.transactions = vec![];
    let blocks = build(&prefix(1), 1, 2, false, &picked, keep_all).expect("a chain");
    assert_eq!(blocks[0].transactions, vec![]);
    assert_eq!(blocks[0].header.merkle_root, merkle_root(&vec![]));
}

#[test]
fn a_notarisation_without_funding() {
    assert_eq!(
        build(&prefix(2), 2, 1, true, &templates(), reject_index_1),
        Err(BuildError::MissingFundingTransaction)
    );
    // Without a block two below nothing is asked of the funding transaction.
    assert!(build(&prefix(1), 1, 1, true, &templates(), reject_index_1).is_ok());
    assert_eq!(
        build(&prefix(1), 1, 2, true, &templates(), reject_index_1),
        Err(BuildError::MissingFundingTransaction)
    );
}

#[test]
fn a_notarisation_with_a_coinbase_input() {
    let mut picked = templates();
    picked.block_nota.transactions[2].inputs.push(coinbase(1).inputs.remove(0));
    assert_eq!(
        build(&prefix(2), 2, 1, true, &picked, keep_all),
        Err(BuildError::NotarisationSpendsCoinbase)
    );
}

#[test]
fn a_notarisation_of_an_output_that_is_not_there() {
    let mut picked = templates();
    picked.block_nota.transactions[2] = nota(&[1, 3]);
    assert_eq!(
        build(&prefix(2), 2, 1, true, &picked, keep_all),
        Err(BuildError::FundingOutputOutOfRange)
    );
    picked.block_nota.transactions[2] = nota(&[2]);
    assert!(build(&prefix(2), 2, 1, true, &picked, keep_all).is_ok());
}

#[test]
fn a_record_in_the_second_transaction_is_left_alone() {
    let mut picked = templates();
    picked.block_nota.transactions = vec![coinbase(127), nota(&[0])];
    let blocks = build(&prefix(2), 2, 1, true, &picked, keep_all).expect("a chain");
    assert_eq!(blocks[0].transactions[1], nota(&[0]));
}

#[test]
fn coinbase_fixup_alone() {
    let fixed = fix_coinbase(coinbase(126), Height(7), b"-b").expect("a coinbase");
    assert_eq!(
        fixed.inputs,
        vec![Input::Coinbase {
            height: Height(7),
            data: CoinbaseData(vec![0x01, 0x7e, b'-', b'b']),
            sequence: u32::MAX,
        }]
    );
    assert_eq!(fixed.outputs, coinbase(126).outputs);
    let fixed = fix_coinbase(plain(1), Height(0), b"-b").expect("a coinbase");
    assert_eq!(
        fixed.inputs,
        vec![Input::Coinbase {
            height: Height(0),
            data: CoinbaseData(GENESIS_COINBASE_DATA.to_vec()),
            sequence: u32::MAX,
        }]
    );
    assert_eq!(GENESIS_COINBASE_DATA.len(), 77);
    assert_eq!(&GENESIS_COINBASE_DATA[8..13], b"Zcash");
    assert_eq!(fix_coinbase(plain(1), Height(1), b""), Err(BuildError::MalformedCoinbase));
    let mut empty = coinbase(1);
    empty.inputs.clear();
    assert_eq!(fix_coinbase(empty, Height(0), b""), Err(BuildError::MalformedCoinbase));
}

#[test]
fn retargeting_alone() {
    let target = block::Hash([0xe7; 32]);
    let (fixed, carried) = retarget_nota(nota(&[0, 1]), Height(40), target);
    assert!(carried);
    assert_eq!(fixed.inputs, nota(&[0, 1]).inputs);
    assert_eq!(fixed.outputs[0], nota(&[0, 1]).outputs[0]);
    assert_eq!(fixed.outputs[1].value, Amount(0));
    let mut expected = vec![0x6a, 40, 0, 0, 0];
    expected.extend_from_slice(&[0xe7; 32]);
    expected.extend_from_slice(&template_record().payload);
    assert_eq!(last_script(&fixed), &expected[..]);

    let (same, carried) = retarget_nota(plain(3), Height(40), target);
    assert!(!carried);
    assert_eq!(same, plain(3));
    let mut bare = plain(3);
    bare.outputs.clear();
    let (same, carried) = retarget_nota(bare.clone(), Height(40), target);
    assert!(!carried);
    assert_eq!(same, bare);
}

#[test]
fn blocks_are_found_by_height() {
    let start_blocks = prefix(2);
    let built = prefix(5).split_off(2);
    assert_eq!(block_at(&start_blocks, Height(2), &built, 0), Some(&start_blocks[0]));
    assert_eq!(block_at(&start_blocks, Height(2), &built, 1), Some(&start_blocks[1]));
    assert_eq!(block_at(&start_blocks, Height(2), &built, 2), Some(&built[0]));
    assert_eq!(block_at(&start_blocks, Height(2), &built, 4), Some(&built[2]));
    assert_eq!(block_at(&start_blocks, Height(2), &built, 5), None);
    assert_eq!(block_at(&start_blocks, Height(3), &built, 2), None);
    assert_eq!(block_at(&start_blocks, Height(1), &built, 1), Some(&built[0]));
}

#[test]
fn one_block_at_a_time() {
    let picked = templates();
    let start_blocks = prefix(2);
    let tools = collaborators(keep_all);
    let built = tools
        .build_block(
            b"TESTBRANCH",
            &picked.block_nota,
            Height(2),
            Some(&start_blocks[1]),
            Some(&start_blocks[0]),
            ValueBalance::zero(),
            UtxoSet::new(),
        )
        .expect("a block");
    assert_eq!(built.chain_value_pools, ValueBalance::zero());
    assert_eq!(built.utxos.len(), 0);
    let chain = build(&start_blocks, 2, 1, true, &picked, keep_all).expect("a chain");
    assert_eq!(chain, vec![built.block]);
    assert_eq!(
        tools.build_block(
            b"TESTBRANCH",
            &picked.block_nota,
            Height(2),
            None,
            None,
            ValueBalance::zero(),
            UtxoSet::new(),
        ),
        Err(BuildError::MissingPreviousBlock)
    );
    assert_eq!(tools.hash_block(&start_blocks[0]), hash_block(&start_blocks[0]));
    assert_eq!(tools.hash_transaction(&plain(1)), hash_transaction(&plain(1)));
    assert_eq!(tools.compute_merkle_root(&vec![plain(1)]), merkle_root(&vec![plain(1)]));
}

#[test]
fn sealing_a_header_alone() {
    let template = header(5000);
    let root = Root([0x77; 32]);
    let below = (block::Hash([0x88; 32]), DateTime32::from(9000));
    let sealed = seal_header(&template, Height(3), root, Some(below));
    assert_eq!(
        sealed,
        Header {
            previous_block_hash: block::Hash([0x88; 32]),
            merkle_root: root,
            time: DateTime32::from(9060),
            ..template
        }
    );
    let genesis = Header {
        previous_block_hash: block::Hash([0; 32]),
        merkle_root: root,
        ..template
    };
    assert_eq!(seal_header(&template, Height(0), root, None), genesis);
    assert_eq!(seal_header(&template, Height(0), root, Some(below)), genesis);
    assert_eq!(genesis.time, DateTime32::from(5000));
}

#[test]
fn taking_in_what_the_fixup_answered() {
    let mut utxos = UtxoSet::new();
    utxos.insert(
        OutPoint { hash: tx::Hash([1; 32]), index: 0 },
        OrderedUtxo {
            utxo: Utxo {
                output: plain(1).outputs[0].clone(),
                height: Height(1),
                from_coinbase: false,
                lock_time: LockTime::unlocked(),
            },
            tx_index_in_block: 0,
        },
    );
    let pools = ValueBalance { transparent: Amount(5), ..ValueBalance::zero() };
    let answer = |transaction: Option<Transaction>| FixupResult {
        transaction,
        chain_value_pools: pools,
        utxos: utxos.clone(),
    };
    let start = BlockProgress::start(ValueBalance::zero(), UtxoSet::new());
    assert_eq!(start.transactions, vec![]);
    assert_eq!(start.funding, None);

    // The first transaction is kept and funds nothing.
    let after = absorb(vec![], None, 0, answer(Some(plain(7))));
    assert_eq!(after.transactions, vec![plain(7)]);
    assert_eq!(after.funding, None);
    assert_eq!(after.chain_value_pools, pools);
    assert_eq!(after.utxos, utxos);
    // The second is kept and remembered.
    let after = absorb(vec![plain(7)], None, 1, answer(Some(plain(8))));
    assert_eq!(after.transactions, vec![plain(7), plain(8)]);
    assert_eq!(after.funding, Some(plain(8)));
    // A later one is kept, and the funding transaction stays.
    let after = absorb(vec![plain(7), plain(8)], Some(plain(8)), 2, answer(Some(plain(9))));
    assert_eq!(after.transactions, vec![plain(7), plain(8), plain(9)]);
    assert_eq!(after.funding, Some(plain(8)));
    // A rejected one leaves the transactions as they were; the state is the
    // one that came back all the same.
    let after = absorb(vec![plain(7)], None, 1, answer(None));
    assert_eq!(after.transactions, vec![plain(7)]);
    assert_eq!(after.funding, None);
    assert_eq!(after.chain_value_pools, pools);
    assert_eq!(after.utxos, utxos);
}
