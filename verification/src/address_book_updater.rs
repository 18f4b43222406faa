//! The names of the address book updater: the worker itself runs outside
//! this library, which holds no channels and starts no tasks.
use vstd::prelude::*;

verus! {

/// The address book updater: a worker that takes address changes from the
/// peers' connections and applies each to the address book and to the peer
/// statistics.
#[derive(Debug, PartialEq, Eq, Structural)]
pub struct AddressBookUpdater;

/// The error with which the updater ends once every sender of address
/// changes is closed.
#[derive(Clone, Copy, Debug, PartialEq, Eq, Structural, Hash)]
pub struct AllAddressBookUpdaterSendersClosed;

impl AllAddressBookUpdaterSendersClosed {
    /// The error in words.
    pub fn message(&self) -> (r: &'static str)
        ensures
            r == "all address book updater senders are closed",
    {
        "all address book updater senders are closed"
    }
}

} // verus!
