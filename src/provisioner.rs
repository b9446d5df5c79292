use vstd::prelude::*;
use crate::errors::ErrorKind;
use crate::model::{
    FINAL_SEQUENCE, OutputModel, SpendableOutput, TxInput, TxModel, TxOutput, UnsignedTx,
    copy_bytes, models, pay, spend,
};
use crate::selector::FeePolicy;

verus! {

/// What the buyer does to hold an anchor output.
#[derive(Debug)]
pub enum AnchorStep {
    /// An anchor is already held: use it, create nothing.
    Existing(SpendableOutput),
    /// None is held: sign and broadcast this self-payment, which splits an
    /// anchor off the smallest output, wait for it, and look again.
    Split(UnsignedTx),
}

/// `i` is the first index of a smallest value in `s`.
pub open spec fn is_first_smallest(s: Seq<OutputModel>, i: int) -> bool {
    &&& 0 <= i < s.len()
    &&& forall|j: int| 0 <= j < s.len() ==> s[i].value <= #[trigger] s[j].value
    &&& forall|j: int| 0 <= j < i ==> s[i].value < #[trigger] s[j].value
}

/// Some output of `s` is at or below the anchor value.
pub open spec fn has_anchor(s: Seq<OutputModel>, anchor_value: u64) -> bool {
    exists|j: int| 0 <= j < s.len() && #[trigger] s[j].value <= anchor_value
}

/// The self-payment that splits `o` into an anchor and the remainder less
/// the split's fee, both back to `o`'s script.
pub open spec fn split_spec(o: OutputModel, policy: FeePolicy) -> TxModel {
    TxModel {
        inputs: seq![spend(o.outpoint)],
        outputs: seq![
            pay(policy.anchor_value, o.script),
            pay((o.value - policy.anchor_value - policy.split_fee) as u64, o.script),
        ],
    }
}

fn first_smallest(v: &Vec<SpendableOutput>) -> (r: usize)
    requires
        v@.len() > 0,
    ensures
        is_first_smallest(models(v@), r as int),
{
    let ghost m = models(v@);
    let mut best: usize = 0;
    let mut i: usize = 1;
    while i < v.len()
        invariant
            m == models(v@),
            m.len() == v@.len(),
            0 <= best < i <= v@.len(),
            forall|j: int| 0 <= j < i ==> m[best as int].value <= #[trigger] m[j].value,
            forall|j: int| 0 <= j < best ==> m[best as int].value < #[trigger] m[j].value,
        decreases v@.len() - i,
    {
        if v[i].value < v[best].value {
            best = i;
        }
        i = i + 1;
    }
    best
}

/// Gives the buyer's anchor among the ordinary outputs `utxos`: the first
/// smallest output if it is at or below the anchor value; otherwise the
/// transaction that splits an anchor off it. Fails with
/// `InsufficientFundsForAnchor` where there is no output, or the remainder
/// after the anchor and the fee would not be positive.
pub fn retrieve_dummy_utxo(utxos: &Vec<SpendableOutput>, policy: &FeePolicy) -> (r: Result<AnchorStep, ErrorKind>)
    ensures
        utxos@.len() == 0 ==> r == Err::<AnchorStep, ErrorKind>(ErrorKind::InsufficientFundsForAnchor),
        has_anchor(models(utxos@), policy.anchor_value) ==> (r matches Ok(AnchorStep::Existing(_))),
        r matches Ok(AnchorStep::Existing(o)) ==> exists|i: int|
            is_first_smallest(models(utxos@), i) && o@ == #[trigger] models(utxos@)[i]
                && o.value <= policy.anchor_value,
        utxos@.len() > 0 && !has_anchor(models(utxos@), policy.anchor_value) ==> exists|i: int|
            #![trigger models(utxos@)[i]]
            {
                &&& is_first_smallest(models(utxos@), i)
                &&& if models(utxos@)[i].value <= policy.anchor_value + policy.split_fee {
                    r == Err::<AnchorStep, ErrorKind>(ErrorKind::InsufficientFundsForAnchor)
                } else {
                    r matches Ok(AnchorStep::Split(tx)) && tx@ == split_spec(models(utxos@)[i], *policy)
                }
            },
{
    let ghost m = models(utxos@);
    if utxos.len() == 0 {
        return Err(ErrorKind::InsufficientFundsForAnchor);
    }
    let i = first_smallest(utxos);
    let o = &utxos[i];
    assert(m[i as int] == o@);
    if o.value <= policy.anchor_value {
        return Ok(AnchorStep::Existing(o.duplicate()));
    }
    assert(!has_anchor(m, policy.anchor_value));
    if o.value as u128 <= policy.anchor_value as u128 + policy.split_fee as u128 {
        return Err(ErrorKind::InsufficientFundsForAnchor);
    }
    let remainder = o.value - policy.anchor_value - policy.split_fee;
    let mut inputs: Vec<TxInput> = Vec::new();
    inputs.push(TxInput { previous_output: o.outpoint, sequence: FINAL_SEQUENCE });
    let mut outputs: Vec<TxOutput> = Vec::new();
    outputs.push(TxOutput { value: policy.anchor_value, script_pubkey: copy_bytes(&o.script_pubkey) });
    outputs.push(TxOutput { value: remainder, script_pubkey: copy_bytes(&o.script_pubkey) });
    let tx = UnsignedTx { inputs, outputs };
    assert(tx@.inputs =~= split_spec(o@, *policy).inputs);
    assert(tx@.outputs =~= split_spec(o@, *policy).outputs);
    Ok(AnchorStep::Split(tx))
}

} // verus!
