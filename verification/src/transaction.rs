//! Transactions, as far as their transparent part goes.
use vstd::prelude::*;
use crate::block::Height;
use crate::transparent::{
    clone_inputs, clone_outputs, inputs_view, outputs_view, Input, InputView, Output, OutputView,
};

verus! {

/// The earliest height or time at which a transaction may be mined, as the
/// raw 32-bit field of the transaction.
#[derive(Clone, Copy, Debug, PartialEq, Eq, Structural, Hash)]
pub struct LockTime(pub u32);

impl LockTime {
    /// The lock time of a transaction that may be mined at once.
    pub fn unlocked() -> (r: LockTime)
        ensures
            r == LockTime(0),
    {
        LockTime(0)
    }
}

/// The 32-byte digest that names a transaction.
#[derive(Clone, Copy, Debug, PartialEq, Eq, Hash)]
pub struct Hash(pub [u8; 32]);

impl Hash {
    /// Tells whether two digests hold the same 32 bytes.
    pub fn same(&self, other: &Hash) -> (r: bool)
        ensures
            r == (*self == *other),
    {
        let mut i: usize = 0;
        while i < 32
            invariant
                i <= 32,
                forall|j: int| 0 <= j < i ==> self.0[j] == other.0[j],
            decreases 32 - i,
        {
            if self.0[i] != other.0[i] {
                return false;
            }
            i = i + 1;
        }
        assert(self.0 =~= other.0);
        true
    }
}

/// A transaction: ordered inputs and outputs with the fields that frame them.
#[derive(Debug, PartialEq, Eq)]
pub struct Transaction {
    pub version: u32,
    pub inputs: Vec<Input>,
    pub outputs: Vec<Output>,
    pub lock_time: LockTime,
    pub expiry_height: Height,
}

/// What a [`Transaction`] holds.
pub struct TransactionView {
    pub version: u32,
    pub inputs: Seq<InputView>,
    pub outputs: Seq<OutputView>,
    pub lock_time: LockTime,
    pub expiry_height: Height,
}

impl View for Transaction {
    type V = TransactionView;

    open spec fn view(&self) -> TransactionView {
        TransactionView {
            version: self.version,
            inputs: inputs_view(self.inputs@),
            outputs: outputs_view(self.outputs@),
            lock_time: self.lock_time,
            expiry_height: self.expiry_height,
        }
    }
}

impl Clone for Transaction {
    fn clone(&self) -> (r: Self)
        ensures
            r@ == self@,
    {
        Transaction {
            version: self.version,
            inputs: clone_inputs(&self.inputs),
            outputs: clone_outputs(&self.outputs),
            lock_time: self.lock_time,
            expiry_height: self.expiry_height,
        }
    }
}

/// The views of a run of transactions.
pub open spec fn transactions_view(transactions: Seq<Transaction>) -> Seq<TransactionView> {
    Seq::new(transactions.len(), |i: int| transactions[i]@)
}

/// Copies a run of transactions.
pub fn clone_transactions(transactions: &Vec<Transaction>) -> (r: Vec<Transaction>)
    ensures
        transactions_view(r@) == transactions_view(transactions@),
{
    let mut out: Vec<Transaction> = Vec::new();
    let mut i: usize = 0;
    while i < transactions.len()
        invariant
            i <= transactions.len(),
            out.len() == i,
            forall|j: int| 0 <= j < i ==> out@[j]@ == transactions@[j]@,
        decreases transactions.len() - i,
    {
        out.push(transactions[i].clone());
        i = i + 1;
    }
    assert(transactions_view(out@) =~= transactions_view(transactions@));
    out
}

} // verus!
