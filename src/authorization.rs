use vstd::prelude::*;
use crate::model::{TxInput, TxModel, TxOutputModel};

verus! {

/// The scope of transaction data that a signature commits to.
#[derive(Clone, Copy, Debug, PartialEq, Eq, Structural)]
pub enum SighashMode {
    /// Every input and every output.
    All,
    /// Every input, no output.
    NoOutputs,
    /// Every input and the output at the signed input's index.
    Single,
    /// The signed input alone and every output.
    AllAnyoneCanPay,
    /// The signed input alone and no output.
    NoOutputsAnyoneCanPay,
    /// The signed input alone and the output at its index.
    SingleAnyoneCanPay,
}

impl SighashMode {
    pub open spec fn anyone_can_pay(self) -> bool {
        match self {
            SighashMode::AllAnyoneCanPay => true,
            SighashMode::NoOutputsAnyoneCanPay => true,
            SighashMode::SingleAnyoneCanPay => true,
            _ => false,
        }
    }
}

/// The inputs a signature on input `idx` of `tx` under `mode` commits to.
pub open spec fn committed_inputs(tx: TxModel, idx: int, mode: SighashMode) -> Seq<TxInput> {
    if mode.anyone_can_pay() {
        seq![tx.inputs[idx]]
    } else {
        tx.inputs
    }
}

/// The outputs a signature on input `idx` of `tx` under `mode` commits to.
pub open spec fn committed_outputs(tx: TxModel, idx: int, mode: SighashMode) -> Seq<TxOutputModel> {
    match mode {
        SighashMode::All | SighashMode::AllAnyoneCanPay => tx.outputs,
        SighashMode::NoOutputs | SighashMode::NoOutputsAnyoneCanPay => Seq::empty(),
        _ => seq![tx.outputs[idx]],
    }
}

/// A signature made on input `idx` of `signed` under `mode` is still valid as
/// the signature of input `at` of `candidate`: everything it commits to is
/// unchanged, and the input and its paired output exist.
pub open spec fn authorization_holds(
    signed: TxModel,
    idx: int,
    candidate: TxModel,
    at: int,
    mode: SighashMode,
) -> bool {
    &&& 0 <= idx < signed.inputs.len()
    &&& 0 <= at < candidate.inputs.len()
    &&& (mode == SighashMode::Single || mode == SighashMode::SingleAnyoneCanPay) ==> {
        &&& idx < signed.outputs.len()
        &&& at < candidate.outputs.len()
    }
    &&& candidate.inputs[at] == signed.inputs[idx]
    &&& committed_inputs(candidate, at, mode) == committed_inputs(signed, idx, mode)
    &&& committed_outputs(candidate, at, mode) == committed_outputs(signed, idx, mode)
}

} // verus!
