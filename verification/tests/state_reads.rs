use komodo_dpow::block::{self, Block, Header, Height, Root};
use komodo_dpow::serialization::DateTime32;
use komodo_dpow::state::{
    block, block_header, transaction, unspent_utxo, utxo, Chain, ContextuallyValidBlock,
    HashOrHeight, ZebraDb,
};
use komodo_dpow::transaction::{self as tx, LockTime, Transaction};
use komodo_dpow::transparent::{Input, OrderedUtxo, OutPoint, Output, Script, Utxo};
use komodo_dpow::utxo_set::UtxoSet;
use komodo_dpow::value_balance::Amount;

fn a_transaction(seed: u8) -> Transaction {
    Transaction {
        version: 4,
        inputs: vec![Input::PrevOut {
            outpoint: OutPoint { hash: tx::Hash([seed; 32]), index: seed as u32 },
            unlock_script: Script::new(&[seed]),
            sequence: 7,
        }],
        outputs: vec![Output { value: Amount(seed as u64), lock_script: Script::new(&[seed, seed]) }],
        lock_time: LockTime(0),
        expiry_height: Height(0),
    }
}

fn stored(height: u32, seed: u8, tx_seeds: &[u8]) -> ContextuallyValidBlock {
    ContextuallyValidBlock {
        block: Block {
            header: Header {
                version: 4,
                previous_block_hash: block::Hash([seed.wrapping_sub(1); 32]),
                merkle_root: Root([seed; 32]),
                commitment_bytes: [0; 32],
                time: DateTime32::from(1000 + height),
                difficulty_threshold: 0x2007ffff,
                nonce: [seed; 32],
            },
            transactions: tx_seeds.iter().map(|s| a_transaction(*s)).collect(),
        },
        hash: block::Hash([seed; 32]),
        height: Height(height),
        transaction_hashes: tx_seeds.iter().map(|s| tx::Hash([*s; 32])).collect(),
    }
}

fn a_utxo(value: u64) -> OrderedUtxo {
    OrderedUtxo {
        utxo: Utxo {
            output: Output { value: Amount(value), lock_script: Script::new(&[1, 2, 3]) },
            height: Height(5),
            from_coinbase: false,
            lock_time: LockTime(0),
        },
        tx_index_in_block: 1,
    }
}

fn outpoint(seed: u8) -> OutPoint {
    OutPoint { hash: tx::Hash([seed; 32]), index: 0 }
}

fn a_db() -> ZebraDb {
    let mut utxos = UtxoSet::new();
    utxos.insert(outpoint(1), a_utxo(100));
    utxos.insert(outpoint(2), a_utxo(200));
    ZebraDb { blocks: vec![stored(0, 10, &[1]), stored(1, 11, &[2, 3]), stored(2, 12, &[4])], utxos }
}

fn a_chain() -> Chain {
    let mut created = UtxoSet::new();
    created.insert(outpoint(2), a_utxo(222));
    created.insert(outpoint(3), a_utxo(300));
    Chain {
        // The chain holds another block at height 2, and a block at height 3.
        blocks: vec![stored(2, 22, &[5]), stored(3, 23, &[6, 2])],
        created_utxos: created,
        spent_utxos: vec![outpoint(1), outpoint(3)],
    }
}

#[test]
fn a_block_of_the_chain_comes_first() {
    let db = a_db();
    let chain = a_chain();
    let found = block(Some(&chain), &db, HashOrHeight::Height(Height(2))).expect("a block");
    assert_eq!(found, &chain.blocks[0].block);
    let found = block(Some(&chain), &db, HashOrHeight::Hash(block::Hash([23; 32]))).expect("a block");
    assert_eq!(found, &chain.blocks[1].block);
}

#[test]
fn the_store_answers_where_the_chain_has_nothing() {
    let db = a_db();
    let chain = a_chain();
    let found = block(Some(&chain), &db, HashOrHeight::Height(Height(1))).expect("a block");
    assert_eq!(found, &db.blocks[1].block);
    let found = block(Some(&chain), &db, HashOrHeight::Hash(block::Hash([12; 32]))).expect("a block");
    assert_eq!(found, &db.blocks[2].block);
    let found = block(None, &db, HashOrHeight::Height(Height(2))).expect("a block");
    assert_eq!(found, &db.blocks[2].block);
}

#[test]
fn an_unknown_block_is_not_found() {
    let db = a_db();
    let chain = a_chain();
    assert_eq!(block(Some(&chain), &db, HashOrHeight::Height(Height(4))), None);
    assert_eq!(block(Some(&chain), &db, HashOrHeight::Hash(block::Hash([99; 32]))), None);
    assert_eq!(block(None, &db, HashOrHeight::Height(Height(3))), None);
    assert_eq!(block_header(None, &db, HashOrHeight::Height(Height(3))), None);
}

#[test]
fn headers_are_read_like_blocks() {
    let db = a_db();
    let chain = a_chain();
    assert_eq!(
        block_header(Some(&chain), &db, HashOrHeight::Height(Height(2))),
        Some(chain.blocks[0].block.header)
    );
    assert_eq!(
        block_header(Some(&chain), &db, HashOrHeight::Height(Height(0))),
        Some(db.blocks[0].block.header)
    );
    assert_eq!(
        block_header(None, &db, HashOrHeight::Height(Height(2))),
        Some(db.blocks[2].block.header)
    );
    assert_eq!(
        block_header(None, &db, HashOrHeight::Height(Height(2))).unwrap().time,
        DateTime32::from(1002)
    );
}

#[test]
fn transactions_are_found_with_their_height() {
    let db = a_db();
    let chain = a_chain();
    // In the chain and in the store: the chain answers.
    assert_eq!(
        transaction(Some(&chain), &db, tx::Hash([2; 32])),
        Some((&chain.blocks[1].block.transactions[1], Height(3)))
    );
    // Without the chain: the store.
    assert_eq!(
        transaction(None, &db, tx::Hash([2; 32])),
        Some((&db.blocks[1].block.transactions[0], Height(1)))
    );
    // In the store only.
    assert_eq!(
        transaction(Some(&chain), &db, tx::Hash([3; 32])),
        Some((&db.blocks[1].block.transactions[1], Height(1)))
    );
    // In the chain only.
    assert_eq!(
        transaction(Some(&chain), &db, tx::Hash([5; 32])),
        Some((&chain.blocks[0].block.transactions[0], Height(2)))
    );
    assert_eq!(transaction(None, &db, tx::Hash([5; 32])), None);
    assert_eq!(transaction(Some(&chain), &db, tx::Hash([77; 32])), None);
}

#[test]
fn a_hash_without_a_transaction_is_passed_over() {
    let mut db = a_db();
    // One hash more than transactions: the last hash names nothing.
    db.blocks[0].transaction_hashes.push(tx::Hash([9; 32]));
    assert_eq!(transaction(None, &db, tx::Hash([9; 32])), None);
    assert_eq!(
        transaction(None, &db, tx::Hash([1; 32])),
        Some((&db.blocks[0].block.transactions[0], Height(0)))
    );
}

#[test]
fn outputs_of_the_chain_come_first() {
    let db = a_db();
    let chain = a_chain();
    // Made by the chain and unspent in the store: the chain answers.
    assert_eq!(utxo(Some(&chain), &db, outpoint(2)), Some(a_utxo(222).utxo));
    assert_eq!(utxo(None, &db, outpoint(2)), Some(a_utxo(200).utxo));
    // In the store only.
    assert_eq!(utxo(Some(&chain), &db, outpoint(1)), Some(a_utxo(100).utxo));
    // Made by the chain only; spent or not, it is returned.
    assert_eq!(utxo(Some(&chain), &db, outpoint(3)), Some(a_utxo(300).utxo));
    assert_eq!(utxo(None, &db, outpoint(3)), None);
    assert_eq!(utxo(Some(&chain), &db, outpoint(4)), None);
}

#[test]
fn spent_outputs_are_not_unspent() {
    let db = a_db();
    let chain = a_chain();
    // The chain spent an output of the store.
    assert_eq!(unspent_utxo(Some(&chain), &db, outpoint(1)), None);
    assert_eq!(unspent_utxo(None, &db, outpoint(1)), Some(a_utxo(100).utxo));
    // The chain spent an output that it made.
    assert_eq!(unspent_utxo(Some(&chain), &db, outpoint(3)), None);
    // Unspent in the chain.
    assert_eq!(unspent_utxo(Some(&chain), &db, outpoint(2)), Some(a_utxo(222).utxo));
    assert_eq!(unspent_utxo(Some(&chain), &db, outpoint(4)), None);
    assert!(chain.has_spent(&outpoint(1)));
    assert!(!chain.has_spent(&outpoint(2)));
}

#[test]
fn the_layers_are_read_one_by_one() {
    let db = a_db();
    let chain = a_chain();
    assert_eq!(chain.block(HashOrHeight::Height(Height(3))), Some(&chain.blocks[1]));
    assert_eq!(chain.block(HashOrHeight::Height(Height(0))), None);
    assert_eq!(db.block(HashOrHeight::Height(Height(0))), Some(&db.blocks[0].block));
    assert_eq!(chain.created_utxo(&outpoint(3)), Some(a_utxo(300).utxo));
    assert_eq!(chain.created_utxo(&outpoint(1)), None);
    assert_eq!(
        chain.transaction(&tx::Hash([6; 32])),
        Some((&chain.blocks[1].block.transactions[0], Height(3)))
    );
    assert_eq!(
        db.transaction(&tx::Hash([4; 32])),
        Some((&db.blocks[2].block.transactions[0], Height(2)))
    );
}
