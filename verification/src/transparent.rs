//! Transparent inputs and outputs, scripts and unspent outputs.
use vstd::prelude::*;
use crate::block::Height;
use crate::serialization::copy_bytes;
use crate::transaction::{self, LockTime};
use crate::value_balance::Amount;

verus! {

/// The coinbase payload that the genesis block carries.
pub const GENESIS_COINBASE_DATA: [u8; 77] = [
    4, 255, 255, 7, 31, 1, 4, 69, 90, 99, 97, 115, 104, 48, 98, 57, 99, 52, 101, 101, 102, 56, 98,
    55, 99, 99, 52, 49, 55, 101, 101, 53, 48, 48, 49, 101, 51, 53, 48, 48, 57, 56, 52, 98, 54, 102,
    101, 97, 51, 53, 54, 56, 51, 97, 55, 99, 97, 99, 49, 52, 49, 97, 48, 52, 51, 99, 52, 50, 48,
    54, 52, 56, 51, 53, 100, 51, 52,
];

/// A script, as the raw bytes that a transaction carries.
#[derive(Debug, PartialEq, Eq)]
pub struct Script(pub Vec<u8>);

impl View for Script {
    type V = Seq<u8>;

    open spec fn view(&self) -> Seq<u8> {
        self.0@
    }
}

impl Clone for Script {
    fn clone(&self) -> (r: Self)
        ensures
            r@ == self@,
    {
        Script(copy_bytes(&self.0))
    }
}

impl Script {
    /// A script made of a copy of `raw_bytes`.
    pub fn new(raw_bytes: &[u8]) -> (r: Script)
        ensures
            r@ == raw_bytes@,
    {
        let mut out: Vec<u8> = Vec::new();
        let mut i: usize = 0;
        while i < raw_bytes.len()
            invariant
                i <= raw_bytes.len(),
                out@ == raw_bytes@.subrange(0, i as int),
            decreases raw_bytes.len() - i,
        {
            out.push(raw_bytes[i]);
            i = i + 1;
        }
        assert(raw_bytes@.subrange(0, raw_bytes.len() as int) == raw_bytes@);
        Script(out)
    }

    /// The bytes of the script.
    pub fn as_raw_bytes(&self) -> (r: &[u8])
        ensures
            r@ == self@,
    {
        self.0.as_slice()
    }
}

/// The free-form payload of a coinbase input.
#[derive(Debug, PartialEq, Eq)]
pub struct CoinbaseData(pub Vec<u8>);

impl View for CoinbaseData {
    type V = Seq<u8>;

    open spec fn view(&self) -> Seq<u8> {
        self.0@
    }
}

impl Clone for CoinbaseData {
    fn clone(&self) -> (r: Self)
        ensures
            r@ == self@,
    {
        CoinbaseData(copy_bytes(&self.0))
    }
}

/// Names one output of one transaction.
#[derive(Clone, Copy, Debug, PartialEq, Eq, Hash)]
pub struct OutPoint {
    /// The hash of the transaction that holds the output.
    pub hash: transaction::Hash,
    /// The position of the output in that transaction.
    pub index: u32,
}

impl OutPoint {
    /// Tells whether two outpoints name the same output.
    pub fn same(&self, other: &OutPoint) -> (r: bool)
        ensures
            r == (*self == *other),
    {
        self.index == other.index && self.hash.same(&other.hash)
    }
}

/// An input of a transaction.
#[derive(Debug, PartialEq, Eq)]
pub enum Input {
    /// Spends an output of an earlier transaction.
    PrevOut { outpoint: OutPoint, unlock_script: Script, sequence: u32 },
    /// Creates new coins in the first transaction of a block.
    Coinbase { height: Height, data: CoinbaseData, sequence: u32 },
}

/// What an [`Input`] holds, with byte strings as sequences.
pub enum InputView {
    PrevOut { outpoint: OutPoint, unlock_script: Seq<u8>, sequence: u32 },
    Coinbase { height: Height, data: Seq<u8>, sequence: u32 },
}

impl View for Input {
    type V = InputView;

    open spec fn view(&self) -> InputView {
        match *self {
            Input::PrevOut { outpoint, unlock_script, sequence } => InputView::PrevOut {
                outpoint,
                unlock_script: unlock_script@,
                sequence,
            },
            Input::Coinbase { height, data, sequence } => InputView::Coinbase {
                height,
                data: data@,
                sequence,
            },
        }
    }
}

impl Clone for Input {
    fn clone(&self) -> (r: Self)
        ensures
            r@ == self@,
    {
        match self {
            Input::PrevOut { outpoint, unlock_script, sequence } => Input::PrevOut {
                outpoint: *outpoint,
                unlock_script: unlock_script.clone(),
                sequence: *sequence,
            },
            Input::Coinbase { height, data, sequence } => Input::Coinbase {
                height: *height,
                data: data.clone(),
                sequence: *sequence,
            },
        }
    }
}

/// An output of a transaction: an amount under a locking script.
#[derive(Debug, PartialEq, Eq)]
pub struct Output {
    pub value: Amount,
    pub lock_script: Script,
}

/// What an [`Output`] holds, with the script as a sequence of bytes.
pub struct OutputView {
    pub value: Amount,
    pub lock_script: Seq<u8>,
}

impl View for Output {
    type V = OutputView;

    open spec fn view(&self) -> OutputView {
        OutputView { value: self.value, lock_script: self.lock_script@ }
    }
}

impl Clone for Output {
    fn clone(&self) -> (r: Self)
        ensures
            r@ == self@,
    {
        Output { value: self.value, lock_script: self.lock_script.clone() }
    }
}

/// An unspent output together with what is known of the block that made it.
#[derive(Debug, PartialEq, Eq)]
pub struct Utxo {
    pub output: Output,
    /// The height of the block that holds the output.
    pub height: Height,
    /// Whether a coinbase transaction made the output.
    pub from_coinbase: bool,
    /// The lock time of the transaction that made the output.
    pub lock_time: LockTime,
}

/// What a [`Utxo`] holds.
pub struct UtxoView {
    pub output: OutputView,
    pub height: Height,
    pub from_coinbase: bool,
    pub lock_time: LockTime,
}

impl View for Utxo {
    type V = UtxoView;

    open spec fn view(&self) -> UtxoView {
        UtxoView {
            output: self.output@,
            height: self.height,
            from_coinbase: self.from_coinbase,
            lock_time: self.lock_time,
        }
    }
}

impl Clone for Utxo {
    fn clone(&self) -> (r: Self)
        ensures
            r@ == self@,
    {
        Utxo {
            output: self.output.clone(),
            height: self.height,
            from_coinbase: self.from_coinbase,
            lock_time: self.lock_time,
        }
    }
}

/// A [`Utxo`] with the position in its block of the transaction that made it.
#[derive(Debug, PartialEq, Eq)]
pub struct OrderedUtxo {
    pub utxo: Utxo,
    pub tx_index_in_block: usize,
}

/// What an [`OrderedUtxo`] holds.
pub struct OrderedUtxoView {
    pub utxo: UtxoView,
    pub tx_index_in_block: usize,
}

impl View for OrderedUtxo {
    type V = OrderedUtxoView;

    open spec fn view(&self) -> OrderedUtxoView {
        OrderedUtxoView { utxo: self.utxo@, tx_index_in_block: self.tx_index_in_block }
    }
}

impl Clone for OrderedUtxo {
    fn clone(&self) -> (r: Self)
        ensures
            r@ == self@,
    {
        OrderedUtxo { utxo: self.utxo.clone(), tx_index_in_block: self.tx_index_in_block }
    }
}

/// The views of a run of inputs.
pub open spec fn inputs_view(inputs: Seq<Input>) -> Seq<InputView> {
    Seq::new(inputs.len(), |i: int| inputs[i]@)
}

/// The views of a run of outputs.
pub open spec fn outputs_view(outputs: Seq<Output>) -> Seq<OutputView> {
    Seq::new(outputs.len(), |i: int| outputs[i]@)
}

/// Copies a run of inputs.
pub fn clone_inputs(inputs: &Vec<Input>) -> (r: Vec<Input>)
    ensures
        inputs_view(r@) == inputs_view(inputs@),
{
    let mut out: Vec<Input> = Vec::new();
    let mut i: usize = 0;
    while i < inputs.len()
        invariant
            i <= inputs.len(),
            out.len() == i,
            forall|j: int| 0 <= j < i ==> out@[j]@ == inputs@[j]@,
        decreases inputs.len() - i,
    {
        out.push(inputs[i].clone());
        i = i + 1;
    }
    assert(inputs_view(out@) =~= inputs_view(inputs@));
    out
}

/// Copies a run of outputs.
pub fn clone_outputs(outputs: &Vec<Output>) -> (r: Vec<Output>)
    ensures
        outputs_view(r@) == outputs_view(outputs@),
{
    let mut out: Vec<Output> = Vec::new();
    let mut i: usize = 0;
    while i < outputs.len()
        invariant
            i <= outputs.len(),
            out.len() == i,
            forall|j: int| 0 <= j < i ==> out@[j]@ == outputs@[j]@,
        decreases outputs.len() - i,
    {
        out.push(outputs[i].clone());
        i = i + 1;
    }
    assert(outputs_view(out@) =~= outputs_view(outputs@));
    out
}

} // verus!
