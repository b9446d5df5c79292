use vstd::prelude::*;

verus! {

/// A reference to one output of an earlier transaction.
#[derive(Clone, Copy, Debug)]
pub struct OutPoint {
    /// Transaction id, in the byte order the ledger hashes it.
    pub txid: [u8; 32],
    pub vout: u32,
}

/// Both references name the same output.
pub open spec fn same_outpoint_spec(a: OutPoint, b: OutPoint) -> bool {
    a.txid@ == b.txid@ && a.vout == b.vout
}

pub fn same_outpoint(a: &OutPoint, b: &OutPoint) -> (r: bool)
    ensures
        r == same_outpoint_spec(*a, *b),
{
    if a.vout != b.vout {
        return false;
    }
    let mut i: usize = 0;
    while i < 32
        invariant
            0 <= i <= 32,
            a.txid@.len() == 32,
            b.txid@.len() == 32,
            forall|j: int| 0 <= j < i ==> a.txid@[j] == b.txid@[j],
        decreases 32 - i,
    {
        if a.txid[i] != b.txid[i] {
            return false;
        }
        i = i + 1;
    }
    assert(a.txid@ =~= b.txid@);
    true
}

/// A spendable output reported by a wallet.
#[derive(Debug)]
pub struct SpendableOutput {
    pub outpoint: OutPoint,
    /// Value in minor units.
    pub value: u64,
    /// The locking script of the owning address.
    pub script_pubkey: Vec<u8>,
}

/// What a spendable output is, as a mathematical value.
pub ghost struct OutputModel {
    pub outpoint: OutPoint,
    pub value: u64,
    pub script: Seq<u8>,
}

impl View for SpendableOutput {
    type V = OutputModel;

    open spec fn view(&self) -> OutputModel {
        OutputModel { outpoint: self.outpoint, value: self.value, script: self.script_pubkey@ }
    }
}

/// The models of a sequence of spendable outputs, element by element.
pub open spec fn models(s: Seq<SpendableOutput>) -> Seq<OutputModel> {
    s.map_values(|o: SpendableOutput| o@)
}

/// Sum of the values of a sequence of outputs.
pub open spec fn total_value(s: Seq<OutputModel>) -> int
    decreases s.len(),
{
    if s.len() == 0 {
        0
    } else {
        total_value(s.drop_last()) + s.last().value
    }
}

pub fn copy_bytes(b: &Vec<u8>) -> (r: Vec<u8>)
    ensures
        r@ == b@,
{
    let r = b.clone();
    assert(r@ =~= b@);
    r
}

impl SpendableOutput {
    pub fn duplicate(&self) -> (r: SpendableOutput)
        ensures
            r@ == self@,
    {
        SpendableOutput {
            outpoint: self.outpoint,
            value: self.value,
            script_pubkey: copy_bytes(&self.script_pubkey),
        }
    }
}

/// A transaction input: the output it spends and its sequence number.
#[derive(Clone, Copy, Debug)]
pub struct TxInput {
    pub previous_output: OutPoint,
    pub sequence: u32,
}

/// The sequence number that disables relative lock time and replacement.
pub const FINAL_SEQUENCE: u32 = 0xFFFF_FFFF;

/// A transaction output.
#[derive(Debug)]
pub struct TxOutput {
    pub value: u64,
    pub script_pubkey: Vec<u8>,
}

pub ghost struct TxOutputModel {
    pub value: u64,
    pub script: Seq<u8>,
}

impl View for TxOutput {
    type V = TxOutputModel;

    open spec fn view(&self) -> TxOutputModel {
        TxOutputModel { value: self.value, script: self.script_pubkey@ }
    }
}

impl TxOutput {
    pub fn duplicate(&self) -> (r: TxOutput)
        ensures
            r@ == self@,
    {
        TxOutput { value: self.value, script_pubkey: copy_bytes(&self.script_pubkey) }
    }
}

/// An unsigned transaction of version 2 with lock time 0.
#[derive(Debug)]
pub struct UnsignedTx {
    pub inputs: Vec<TxInput>,
    pub outputs: Vec<TxOutput>,
}

pub ghost struct TxModel {
    pub inputs: Seq<TxInput>,
    pub outputs: Seq<TxOutputModel>,
}

impl View for UnsignedTx {
    type V = TxModel;

    open spec fn view(&self) -> TxModel {
        TxModel {
            inputs: self.inputs@,
            outputs: self.outputs@.map_values(|o: TxOutput| o@),
        }
    }
}

/// An input that spends `op`, with the final sequence number.
pub open spec fn spend(op: OutPoint) -> TxInput {
    TxInput { previous_output: op, sequence: FINAL_SEQUENCE }
}

/// An output of `value` locked by `script`.
pub open spec fn pay(value: u64, script: Seq<u8>) -> TxOutputModel {
    TxOutputModel { value, script }
}

} // verus!
