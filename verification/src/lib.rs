//! Consensus-side helpers for a chain that is secured by elected notaries.
//!
//! The crate has five parts:
//!
//! * the chain data model ([`block`], [`transaction`], [`transparent`],
//!   [`utxo_set`], [`value_balance`], [`serialization`], [`parameters`],
//!   [`views`]),
//! * the notary season registry ([`komodo_hardfork`]) with its table
//!   ([`komodo_notaries`]) and its key handling ([`komodo_utils`]),
//! * the back-notarisation record codec ([`komodo_nota`]),
//! * the partial-chain builder ([`komodo_generate`]) and the layered state
//!   reads ([`state`]),
//! * the names of the address book updater ([`address_book_updater`]).
//!
//! Every executable function carries a contract. Verus proves each of them
//! but two: the calls into the hex and the secp256k1 crates in
//! [`komodo_utils`] have contracts that are taken on trust.
pub mod views;
pub mod serialization;
pub mod value_balance;
pub mod block;
pub mod transaction;
pub mod transparent;
pub mod utxo_set;
pub mod komodo_nota;
pub mod komodo_utils;
pub mod komodo_notaries;
pub mod komodo_hardfork;
pub mod parameters;
pub mod komodo_generate;
pub mod state;
pub mod address_book_updater;

