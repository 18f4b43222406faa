use komodo_dpow::address_book_updater::{AddressBookUpdater, AllAddressBookUpdaterSendersClosed};
use komodo_dpow::block::Height;
use komodo_dpow::transaction::{self, LockTime};
use komodo_dpow::transparent::{OrderedUtxo, OutPoint, Output, Script, Utxo};
use komodo_dpow::utxo_set::UtxoSet;
use komodo_dpow::value_balance::{Amount, ValueBalance};

fn outpoint(seed: u8, index: u32) -> OutPoint {
    OutPoint { hash: transaction::Hash([seed; 32]), index }
}

fn utxo(value: u64) -> OrderedUtxo {
    OrderedUtxo {
        utxo: Utxo {
            output: Output { value: Amount(value), lock_script: Script::new(&[value as u8, 0xac]) },
            height: Height(value as u32),
            from_coinbase: value % 2 == 0,
            lock_time: LockTime::unlocked(),
        },
        tx_index_in_block: 3,
    }
}

#[test]
fn a_new_set_holds_nothing() {
    let set = UtxoSet::new();
    assert_eq!(set.len(), 0);
    assert_eq!(set.get(&outpoint(1, 0)), None);
    assert!(!set.contains(&outpoint(1, 0)));
}

#[test]
fn insert_then_get() {
    let mut set = UtxoSet::new();
    assert_eq!(set.insert(outpoint(1, 0), utxo(10)), None);
    assert_eq!(set.insert(outpoint(1, 1), utxo(11)), None);
    assert_eq!(set.insert(outpoint(2, 0), utxo(20)), None);
    assert_eq!(set.len(), 3);
    assert_eq!(set.get(&outpoint(1, 0)), Some(&utxo(10)));
    assert_eq!(set.get(&outpoint(1, 1)), Some(&utxo(11)));
    assert_eq!(set.get(&outpoint(2, 0)), Some(&utxo(20)));
    assert_eq!(set.get(&outpoint(2, 1)), None);
    assert!(set.contains(&outpoint(2, 0)));
    assert!(!set.contains(&outpoint(3, 0)));
}

#[test]
fn insert_over_an_entry_replaces_it() {
    let mut set = UtxoSet::new();
    set.insert(outpoint(1, 0), utxo(10));
    set.insert(outpoint(1, 1), utxo(11));
    assert_eq!(set.insert(outpoint(1, 0), utxo(99)), Some(utxo(10)));
    assert_eq!(set.len(), 2);
    assert_eq!(set.get(&outpoint(1, 0)), Some(&utxo(99)));
    assert_eq!(set.get(&outpoint(1, 1)), Some(&utxo(11)));
}

#[test]
fn remove_takes_one_entry_out() {
    let mut set = UtxoSet::new();
    set.insert(outpoint(1, 0), utxo(10));
    set.insert(outpoint(1, 1), utxo(11));
    set.insert(outpoint(2, 0), utxo(20));
    assert_eq!(set.remove(&outpoint(1, 1)), Some(utxo(11)));
    assert_eq!(set.len(), 2);
    assert_eq!(set.get(&outpoint(1, 1)), None);
    assert_eq!(set.get(&outpoint(1, 0)), Some(&utxo(10)));
    assert_eq!(set.get(&outpoint(2, 0)), Some(&utxo(20)));
    assert_eq!(set.remove(&outpoint(1, 1)), None);
    assert_eq!(set.len(), 2);
}

#[test]
fn a_cloned_set_holds_the_same() {
    let mut set = UtxoSet::new();
    set.insert(outpoint(1, 0), utxo(10));
    set.insert(outpoint(2, 0), utxo(20));
    let copy = set.clone();
    assert_eq!(copy, set);
    assert_eq!(copy.get(&outpoint(2, 0)), Some(&utxo(20)));
}

#[test]
fn outpoints_are_compared_by_hash_and_index() {
    assert!(outpoint(1, 0).same(&outpoint(1, 0)));
    assert!(!outpoint(1, 0).same(&outpoint(1, 1)));
    assert!(!outpoint(1, 0).same(&outpoint(2, 0)));
    let mut hash = [1u8; 32];
    hash[31] = 2;
    assert!(!outpoint(1, 0).same(&OutPoint { hash: transaction::Hash(hash), index: 0 }));
}

#[test]
fn an_empty_balance() {
    let zero = ValueBalance::zero();
    assert_eq!(zero.transparent, Amount(0));
    assert_eq!(zero.sprout, Amount(0));
    assert_eq!(zero.sapling, Amount(0));
    assert_eq!(zero.orchard, Amount(0));
}

#[test]
fn the_updater_ends_with_its_error() {
    assert_eq!(
        AllAddressBookUpdaterSendersClosed.message(),
        "all address book updater senders are closed"
    );
    assert_eq!(AddressBookUpdater, AddressBookUpdater);
}
