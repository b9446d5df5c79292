use vstd::prelude::*;
use crate::authorization::{SighashMode, authorization_holds};
use crate::errors::ErrorKind;
use crate::model::{
    FINAL_SEQUENCE, OutPoint, OutputModel, SpendableOutput, TxInput, TxModel, TxOutput,
    TxOutputModel, UnsignedTx, copy_bytes, pay, spend,
};
use crate::selector::PaymentSelection;

verus! {

/// The seller's offer: a transaction that spends the artifact and pays the
/// seller, signed under `sighash`.
#[derive(Debug)]
pub struct ListingOffer {
    pub price: u64,
    pub tx: UnsignedTx,
    pub sighash: SighashMode,
}

/// A listing has one input, one output, and commits to that pair alone.
pub open spec fn well_formed_listing(tx: TxModel, mode: SighashMode) -> bool {
    &&& tx.inputs.len() == 1
    &&& tx.outputs.len() == 1
    &&& mode == SighashMode::SingleAnyoneCanPay
}

/// The listing transaction for an artifact at `artifact`, sold for `price`
/// to be paid to `seller_script`.
pub open spec fn listing_spec(artifact: OutPoint, price: u64, seller_script: Seq<u8>) -> TxModel {
    TxModel { inputs: seq![spend(artifact)], outputs: seq![pay(price, seller_script)] }
}

/// Builds the seller's listing: one input spending the artifact, one output
/// paying the price to the seller, to be signed under single-output,
/// anyone-can-pay.
pub fn build_listing(artifact: OutPoint, price: u64, seller_script: &Vec<u8>) -> (r: ListingOffer)
    ensures
        r.tx@ == listing_spec(artifact, price, seller_script@),
        r.price == price,
        r.sighash == SighashMode::SingleAnyoneCanPay,
        well_formed_listing(r.tx@, r.sighash),
{
    let mut inputs: Vec<TxInput> = Vec::new();
    inputs.push(TxInput { previous_output: artifact, sequence: FINAL_SEQUENCE });
    let mut outputs: Vec<TxOutput> = Vec::new();
    outputs.push(TxOutput { value: price, script_pubkey: copy_bytes(seller_script) });
    let tx = UnsignedTx { inputs, outputs };
    assert(tx@.inputs =~= listing_spec(artifact, price, seller_script@).inputs);
    assert(tx@.outputs =~= listing_spec(artifact, price, seller_script@).outputs);
    ListingOffer { price, tx, sighash: SighashMode::SingleAnyoneCanPay }
}

/// What checking a listing against the agreed price gives.
pub open spec fn listing_check_spec(tx: TxModel, mode: SighashMode, price: u64) -> Result<(), ErrorKind> {
    if !well_formed_listing(tx, mode) {
        Err(ErrorKind::MalformedListing)
    } else if tx.outputs[0].value != price {
        Err(ErrorKind::PriceMismatch)
    } else {
        Ok(())
    }
}

/// Checks a listing received from the seller before anything is built on it.
pub fn check_listing(listing: &ListingOffer, price: u64) -> (r: Result<(), ErrorKind>)
    ensures
        r == listing_check_spec(listing.tx@, listing.sighash, price),
{
    if listing.tx.inputs.len() != 1 || listing.tx.outputs.len() != 1 || listing.sighash
        != SighashMode::SingleAnyoneCanPay {
        Err(ErrorKind::MalformedListing)
    } else if listing.tx.outputs[0].value != price {
        Err(ErrorKind::PriceMismatch)
    } else {
        Ok(())
    }
}

/// The buyer's purchase transaction. Inputs: the anchor, the artifact as the
/// listing spends it, the payment inputs. Outputs: artifact and anchor value
/// to the buyer, the listing's payment to the seller, a new anchor, change.
pub open spec fn purchase_spec(
    listing: TxModel,
    anchor: OutputModel,
    artifact_value: u64,
    payment: Seq<OutPoint>,
    new_anchor_value: u64,
    change: u64,
) -> TxModel {
    TxModel {
        inputs: seq![spend(anchor.outpoint), listing.inputs[0]] + payment.map_values(
            |op: OutPoint| spend(op),
        ),
        outputs: seq![
            pay((artifact_value + anchor.value) as u64, anchor.script),
            listing.outputs[0],
            pay(new_anchor_value, anchor.script),
            pay(change, anchor.script),
        ],
    }
}

/// The buyer's combined transaction, ready for the buyer to sign its own
/// inputs.
#[derive(Debug)]
pub struct PurchaseBundle {
    pub tx: UnsignedTx,
    /// Index of the input that carries the seller's signature.
    pub seller_input: usize,
}

/// Assembles the purchase from a checked listing, the buyer's anchor output,
/// the value the artifact's output carries, and the selected payment.
pub fn assemble_purchase(
    listing: &ListingOffer,
    price: u64,
    anchor: &SpendableOutput,
    artifact_value: u64,
    payment: &PaymentSelection,
    new_anchor_value: u64,
) -> (r: Result<PurchaseBundle, ErrorKind>)
    requires
        payment.wf(),
        artifact_value + anchor.value <= u64::MAX,
    ensures
        r is Err ==> r->Err_0 == listing_check_spec(listing.tx@, listing.sighash, price)->Err_0,
        r is Ok <==> listing_check_spec(listing.tx@, listing.sighash, price) is Ok,
        r is Ok ==> {
            let b = r->Ok_0;
            &&& b.tx@ == purchase_spec(
                listing.tx@,
                anchor@,
                artifact_value,
                payment.inputs@,
                new_anchor_value,
                (payment.total - payment.required) as u64,
            )
            &&& b.seller_input == 1
            &&& b.tx@.outputs[1] == listing.tx@.outputs[0]
            &&& authorization_holds(listing.tx@, 0, b.tx@, 1, listing.sighash)
        },
{
    match check_listing(listing, price) {
        Err(e) => Err(e),
        Ok(()) => {
            let ghost spec_tx = purchase_spec(
                listing.tx@,
                anchor@,
                artifact_value,
                payment.inputs@,
                new_anchor_value,
                (payment.total - payment.required) as u64,
            );
            let mut inputs: Vec<TxInput> = Vec::new();
            inputs.push(TxInput { previous_output: anchor.outpoint, sequence: FINAL_SEQUENCE });
            inputs.push(listing.tx.inputs[0]);
            let mut i: usize = 0;
            while i < payment.inputs.len()
                invariant
                    0 <= i <= payment.inputs@.len(),
                    inputs@ == seq![spend(anchor.outpoint), listing.tx@.inputs[0]]
                        + payment.inputs@.take(i as int).map_values(|op: OutPoint| spend(op)),
                decreases payment.inputs@.len() - i,
            {
                proof {
                    assert(payment.inputs@.take(i + 1).map_values(|op: OutPoint| spend(op))
                        =~= payment.inputs@.take(i as int).map_values(|op: OutPoint| spend(op)).push(
                        spend(payment.inputs@[i as int]),
                    ));
                }
                inputs.push(TxInput { previous_output: payment.inputs[i], sequence: FINAL_SEQUENCE });
                i = i + 1;
                proof {
                    assert(inputs@ =~= seq![spend(anchor.outpoint), listing.tx@.inputs[0]]
                        + payment.inputs@.take(i as int).map_values(|op: OutPoint| spend(op)));
                }
            }
            assert(payment.inputs@.take(i as int) =~= payment.inputs@);
            let change = (payment.total - payment.required) as u64;
            let mut outputs: Vec<TxOutput> = Vec::new();
            outputs.push(
                TxOutput {
                    value: artifact_value + anchor.value,
                    script_pubkey: copy_bytes(&anchor.script_pubkey),
                },
            );
            outputs.push(listing.tx.outputs[0].duplicate());
            outputs.push(
                TxOutput { value: new_anchor_value, script_pubkey: copy_bytes(&anchor.script_pubkey) },
            );
            outputs.push(TxOutput { value: change, script_pubkey: copy_bytes(&anchor.script_pubkey) });
            let tx = UnsignedTx { inputs, outputs };
            assert(tx@.inputs =~= spec_tx.inputs);
            assert(tx@.outputs =~= spec_tx.outputs);
            assert(committed_pair_equal(listing.tx@, tx@)) by {
                assert(seq![tx@.inputs[1]] =~= seq![listing.tx@.inputs[0]]);
                assert(seq![tx@.outputs[1]] =~= seq![listing.tx@.outputs[0]]);
            }
            Ok(PurchaseBundle { tx, seller_input: 1 })
        },
    }
}

spec fn committed_pair_equal(listing: TxModel, purchase: TxModel) -> bool {
    &&& seq![purchase.inputs[1]] == seq![listing.inputs[0]]
    &&& seq![purchase.outputs[1]] == seq![listing.outputs[0]]
}

/// A listing's signature stays valid when the buyer adds further inputs and
/// outputs after the listing's own pair: the signature mode commits to that
/// one input and that one output alone.
pub proof fn lemma_listing_admits_added_inputs(
    listing: TxModel,
    mode: SighashMode,
    extra_inputs: Seq<TxInput>,
    extra_outputs: Seq<TxOutputModel>,
)
    requires
        well_formed_listing(listing, mode),
    ensures
        authorization_holds(
            listing,
            0,
            TxModel { inputs: listing.inputs + extra_inputs, outputs: listing.outputs + extra_outputs },
            0,
            mode,
        ),
{
    let c = TxModel { inputs: listing.inputs + extra_inputs, outputs: listing.outputs + extra_outputs };
    assert(seq![c.inputs[0]] =~= seq![listing.inputs[0]]);
    assert(seq![c.outputs[0]] =~= seq![listing.outputs[0]]);
}

/// A signature that commits to every input does not survive an added
/// input: such a listing could never be combined with the buyer's inputs.
pub proof fn lemma_all_inputs_mode_rejects_added_input(
    listing: TxModel,
    mode: SighashMode,
    extra_inputs: Seq<TxInput>,
)
    requires
        !mode.anyone_can_pay(),
        extra_inputs.len() > 0,
    ensures
        !authorization_holds(
            listing,
            0,
            TxModel { inputs: listing.inputs + extra_inputs, outputs: listing.outputs },
            0,
            mode,
        ),
{
    let c = TxModel { inputs: listing.inputs + extra_inputs, outputs: listing.outputs };
    assert(c.inputs.len() != listing.inputs.len());
}

/// Every purchase carries the listing's payment output unchanged, value and
/// script, as its second output.
pub proof fn lemma_purchase_keeps_seller_output(
    listing: TxModel,
    anchor: OutputModel,
    artifact_value: u64,
    payment: Seq<OutPoint>,
    new_anchor_value: u64,
    change: u64,
)
    requires
        well_formed_listing(listing, SighashMode::SingleAnyoneCanPay),
    ensures
        purchase_spec(listing, anchor, artifact_value, payment, new_anchor_value, change).outputs[1]
            == listing.outputs[0],
        authorization_holds(
            listing,
            0,
            purchase_spec(listing, anchor, artifact_value, payment, new_anchor_value, change),
            1,
            SighashMode::SingleAnyoneCanPay,
        ),
{
    let p = purchase_spec(listing, anchor, artifact_value, payment, new_anchor_value, change);
    assert(p.inputs[1] == listing.inputs[0]);
    assert(seq![p.inputs[1]] =~= seq![listing.inputs[0]]);
    assert(seq![p.outputs[1]] =~= seq![listing.outputs[0]]);
}

} // verus!
