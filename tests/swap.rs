use ord_swap::assembler::{assemble_purchase, build_listing, check_listing, ListingOffer};
use ord_swap::authorization::SighashMode;
use ord_swap::classifier::{is_utxo_inscription, ordinary_outputs};
use ord_swap::errors::ErrorKind;
use ord_swap::model::{same_outpoint, OutPoint, SpendableOutput, TxInput, TxOutput, UnsignedTx, FINAL_SEQUENCE};
use ord_swap::orchestrator::{check_buyer_funds, next_stage, plan_purchase, Stage, TradeError};
use ord_swap::provisioner::{retrieve_dummy_utxo, AnchorStep};
use ord_swap::selector::{order_by_value_descending, required_total, select_payment, FeePolicy};

fn op(tag: u8, vout: u32) -> OutPoint {
    OutPoint { txid: [tag; 32], vout }
}

fn utxo(tag: u8, value: u64) -> SpendableOutput {
    SpendableOutput { outpoint: op(tag, 0), value, script_pubkey: vec![0x00, 0x14, tag] }
}

fn seller_script() -> Vec<u8> {
    vec![0x51, 0x20, 0xaa]
}

fn listing(price: u64) -> ListingOffer {
    build_listing(op(0xee, 3), price, &seller_script())
}

const PRICE: u64 = 12_340;

#[test]
fn funds_check_passes_with_enough_balance() {
    let l = listing(PRICE);
    assert_eq!(check_listing(&l, PRICE), Ok(()));
    assert_eq!(check_buyer_funds(50_000, PRICE), Ok(()));
}

#[test]
fn funds_check_aborts_on_low_balance() {
    assert_eq!(
        check_buyer_funds(10_000, PRICE),
        Err(TradeError { stage: Stage::CheckBuyerFunds, kind: ErrorKind::InsufficientFunds })
    );
    assert_eq!(next_stage(Stage::CheckBuyerFunds, false), Stage::Aborted);
}

#[test]
fn funds_check_boundary() {
    assert_eq!(check_buyer_funds(PRICE, PRICE), Ok(()));
    assert!(check_buyer_funds(PRICE - 1, PRICE).is_err());
}

#[test]
fn listing_has_one_input_and_one_output() {
    let l = listing(PRICE);
    assert_eq!(l.tx.inputs.len(), 1);
    assert_eq!(l.tx.outputs.len(), 1);
    assert_eq!(l.tx.inputs[0].previous_output.txid, [0xee; 32]);
    assert_eq!(l.tx.inputs[0].previous_output.vout, 3);
    assert_eq!(l.tx.inputs[0].sequence, FINAL_SEQUENCE);
    assert_eq!(l.tx.outputs[0].value, PRICE);
    assert_eq!(l.tx.outputs[0].script_pubkey, seller_script());
    assert_eq!(l.sighash, SighashMode::SingleAnyoneCanPay);
}

#[test]
fn required_total_standard_policy() {
    assert_eq!(required_total(PRICE, &FeePolicy::standard()), 13_812);
    assert_eq!(required_total(0, &FeePolicy::standard()), 1_472);
}

#[test]
fn provisioner_splits_when_no_anchor() {
    let pool = vec![utxo(1, 20_000), utxo(2, 5_000), utxo(3, 9_000)];
    match retrieve_dummy_utxo(&pool, &FeePolicy::standard()) {
        Ok(AnchorStep::Split(tx)) => {
            assert_eq!(tx.inputs.len(), 1);
            assert_eq!(tx.inputs[0].previous_output.txid, [2; 32]);
            assert_eq!(tx.outputs.len(), 2);
            assert_eq!(tx.outputs[0].value, 1_000);
            assert_eq!(tx.outputs[1].value, 5_000 - 1_000 - 258);
            assert_eq!(tx.outputs[0].script_pubkey, vec![0x00, 0x14, 2]);
            assert_eq!(tx.outputs[1].script_pubkey, vec![0x00, 0x14, 2]);
        }
        other => panic!("expected a split, got {:?}", other),
    }
}

#[test]
fn provisioner_is_noop_with_existing_anchor() {
    let pool = vec![utxo(1, 20_000), utxo(2, 1_000), utxo(3, 600), utxo(4, 600)];
    match retrieve_dummy_utxo(&pool, &FeePolicy::standard()) {
        Ok(AnchorStep::Existing(o)) => {
            assert_eq!(o.value, 600);
            assert_eq!(o.outpoint.txid, [3; 32]);
        }
        other => panic!("expected the existing anchor, got {:?}", other),
    }
}

#[test]
fn provisioner_fails_without_outputs() {
    let pool: Vec<SpendableOutput> = Vec::new();
    assert!(matches!(
        retrieve_dummy_utxo(&pool, &FeePolicy::standard()),
        Err(ErrorKind::InsufficientFundsForAnchor)
    ));
}

#[test]
fn provisioner_fails_when_remainder_not_positive() {
    let pool = vec![utxo(1, 1_258), utxo(2, 5_000)];
    assert!(matches!(
        retrieve_dummy_utxo(&pool, &FeePolicy::standard()),
        Err(ErrorKind::InsufficientFundsForAnchor)
    ));
    let pool = vec![utxo(1, 1_259)];
    match retrieve_dummy_utxo(&pool, &FeePolicy::standard()) {
        Ok(AnchorStep::Split(tx)) => assert_eq!(tx.outputs[1].value, 1),
        other => panic!("expected a split, got {:?}", other),
    }
}

#[test]
fn selection_consumes_exact_pool() {
    let required = required_total(PRICE, &FeePolicy::standard());
    let pool = vec![utxo(1, 10_000), utxo(2, 3_812)];
    let sel = select_payment(&pool, required).unwrap();
    assert_eq!(sel.inputs.len(), 2);
    assert_eq!(sel.total, 13_812);
    let l = listing(PRICE);
    let anchor = utxo(9, 600);
    let b = assemble_purchase(&l, PRICE, &anchor, 546, &sel, 1_000).unwrap();
    assert_eq!(b.tx.outputs.len(), 4);
    assert_eq!(b.tx.outputs[3].value, 0);
}

#[test]
fn selection_takes_largest_first_prefix() {
    let pool = vec![utxo(1, 8_000), utxo(2, 5_000), utxo(3, 4_000), utxo(4, 100)];
    let sel = select_payment(&pool, 12_000).unwrap();
    assert_eq!(sel.inputs.len(), 2);
    assert_eq!(sel.inputs[0].txid, [1; 32]);
    assert_eq!(sel.inputs[1].txid, [2; 32]);
    assert_eq!(sel.total, 13_000);
    assert_eq!(sel.required, 12_000);
}

#[test]
fn selection_insufficient_funds() {
    let pool = vec![utxo(1, 8_000), utxo(2, 3_000)];
    assert!(matches!(select_payment(&pool, 12_000), Err(ErrorKind::InsufficientFunds)));
    let empty: Vec<SpendableOutput> = Vec::new();
    assert!(matches!(select_payment(&empty, 1), Err(ErrorKind::InsufficientFunds)));
    assert_eq!(select_payment(&empty, 0).unwrap().inputs.len(), 0);
}

#[test]
fn selection_is_idempotent() {
    let pool = vec![utxo(1, 8_000), utxo(2, 5_000), utxo(3, 5_000), utxo(4, 100)];
    let a = select_payment(&pool, 15_000).unwrap();
    let b = select_payment(&pool, 15_000).unwrap();
    assert_eq!(a.total, b.total);
    assert_eq!(a.inputs.len(), b.inputs.len());
    for i in 0..a.inputs.len() {
        assert_eq!(a.inputs[i].txid, b.inputs[i].txid);
        assert_eq!(a.inputs[i].vout, b.inputs[i].vout);
    }
}

#[test]
fn selection_never_spends_protected_output() {
    let utxos = vec![utxo(1, 50_000), utxo(2, 8_000), utxo(3, 30_000), utxo(4, 7_000)];
    let failed_lookup: Option<String> = None;
    let pages = vec![
        Some("<dl>inscription 17</dl>".to_string()),
        Some("<dl>plain output</dl>".to_string()),
        failed_lookup,
        Some("<dl>plain output</dl>".to_string()),
    ];
    let protected: Vec<bool> = pages.iter().map(is_utxo_inscription).collect();
    assert_eq!(protected, vec![true, false, true, false]);
    let pool = order_by_value_descending(ordinary_outputs(&utxos, &protected));
    assert_eq!(pool.len(), 2);
    let sel = select_payment(&pool, 15_000).unwrap();
    assert_eq!(sel.inputs.len(), 2);
    for input in &sel.inputs {
        assert!(input.txid == [2; 32] || input.txid == [4; 32]);
    }
    assert!(matches!(select_payment(&pool, 15_001), Err(ErrorKind::InsufficientFunds)));
}

#[test]
fn failed_lookup_counts_as_protected() {
    assert!(is_utxo_inscription(&None));
    assert!(!is_utxo_inscription(&Some(String::new())));
}

#[test]
fn ordering_is_largest_first_and_stable() {
    let pool = vec![utxo(1, 5), utxo(2, 9), utxo(3, 5), utxo(4, 1), utxo(5, 9)];
    let r = order_by_value_descending(pool);
    let tags: Vec<u8> = r.iter().map(|o| o.outpoint.txid[0]).collect();
    assert_eq!(tags, vec![2, 5, 1, 3, 4]);
}

#[test]
fn purchase_layout_and_seller_output() {
    let l = listing(PRICE);
    let anchor = utxo(9, 600);
    let pool = vec![utxo(1, 10_000), utxo(2, 8_000), utxo(3, 100)];
    let sel = select_payment(&pool, 13_812).unwrap();
    let b = assemble_purchase(&l, PRICE, &anchor, 546, &sel, 1_000).unwrap();
    assert_eq!(b.seller_input, 1);
    let ins = &b.tx.inputs;
    assert_eq!(ins.len(), 4);
    assert_eq!(ins[0].previous_output.txid, [9; 32]);
    assert_eq!(ins[1].previous_output.txid, l.tx.inputs[0].previous_output.txid);
    assert_eq!(ins[1].previous_output.vout, 3);
    assert_eq!(ins[2].previous_output.txid, [1; 32]);
    assert_eq!(ins[3].previous_output.txid, [2; 32]);
    let outs = &b.tx.outputs;
    assert_eq!(outs[0].value, 546 + 600);
    assert_eq!(outs[0].script_pubkey, anchor.script_pubkey);
    assert_eq!(outs[1].value, l.tx.outputs[0].value);
    assert_eq!(outs[1].script_pubkey, l.tx.outputs[0].script_pubkey);
    assert_eq!(outs[2].value, 1_000);
    assert_eq!(outs[3].value, 18_000 - 13_812);
    assert_eq!(outs[3].script_pubkey, anchor.script_pubkey);
}

#[test]
fn listing_with_two_inputs_is_malformed() {
    let mut l = listing(PRICE);
    l.tx.inputs.push(TxInput { previous_output: op(7, 1), sequence: FINAL_SEQUENCE });
    let anchor = utxo(9, 600);
    let pool = vec![utxo(1, 20_000)];
    let sel = select_payment(&pool, 13_812).unwrap();
    assert!(matches!(
        assemble_purchase(&l, PRICE, &anchor, 546, &sel, 1_000),
        Err(ErrorKind::MalformedListing)
    ));
    assert_eq!(
        plan_purchase(&l, PRICE, &anchor, 546, &pool, &FeePolicy::standard()).unwrap_err(),
        TradeError { stage: Stage::AssemblePurchase, kind: ErrorKind::MalformedListing }
    );
}

#[test]
fn listing_with_other_sighash_is_malformed() {
    let mut l = listing(PRICE);
    l.sighash = SighashMode::All;
    assert_eq!(check_listing(&l, PRICE), Err(ErrorKind::MalformedListing));
    let l2 = ListingOffer {
        price: PRICE,
        tx: UnsignedTx { inputs: vec![TxInput { previous_output: op(1, 0), sequence: 0 }], outputs: Vec::new() },
        sighash: SighashMode::SingleAnyoneCanPay,
    };
    assert_eq!(check_listing(&l2, PRICE), Err(ErrorKind::MalformedListing));
}

#[test]
fn listing_price_mismatch() {
    let l = listing(PRICE + 1);
    assert_eq!(check_listing(&l, PRICE), Err(ErrorKind::PriceMismatch));
    let mut l = listing(PRICE);
    l.tx.outputs[0] = TxOutput { value: 1, script_pubkey: seller_script() };
    assert_eq!(check_listing(&l, PRICE), Err(ErrorKind::PriceMismatch));
}

#[test]
fn plan_purchase_aborts_at_selection() {
    let l = listing(PRICE);
    let anchor = utxo(9, 600);
    let pool = vec![utxo(1, 13_811)];
    assert_eq!(
        plan_purchase(&l, PRICE, &anchor, 546, &pool, &FeePolicy::standard()).unwrap_err(),
        TradeError { stage: Stage::SelectPayment, kind: ErrorKind::InsufficientFunds }
    );
    let pool = vec![utxo(1, 13_812)];
    let b = plan_purchase(&l, PRICE, &anchor, 546, &pool, &FeePolicy::standard()).unwrap();
    assert_eq!(b.tx.inputs.len(), 3);
    assert_eq!(b.tx.outputs[3].value, 0);
}

#[test]
fn stages_advance_in_order() {
    let mut s = Stage::Idle;
    let order = [
        Stage::LocateArtifact,
        Stage::BuildListing,
        Stage::CheckBuyerFunds,
        Stage::ProvisionAnchor,
        Stage::SelectPayment,
        Stage::AssemblePurchase,
        Stage::Finalize,
        Stage::Broadcast,
        Stage::Done,
    ];
    for expected in order {
        s = next_stage(s, true);
        assert_eq!(s, expected);
    }
    assert_eq!(next_stage(Stage::Done, false), Stage::Done);
    assert_eq!(next_stage(Stage::Aborted, true), Stage::Aborted);
    assert_eq!(next_stage(Stage::SelectPayment, false), Stage::Aborted);
}

#[test]
fn anchor_is_never_paid_twice() {
    let l = listing(PRICE);
    let anchor = utxo(9, 600);
    let pool = vec![utxo(1, 13_500), utxo(9, 600)];
    assert_eq!(
        plan_purchase(&l, PRICE, &anchor, 546, &pool, &FeePolicy::standard()).unwrap_err(),
        TradeError { stage: Stage::SelectPayment, kind: ErrorKind::InsufficientFunds }
    );
    let pool = vec![utxo(1, 13_500), utxo(9, 600), utxo(2, 400)];
    let b = plan_purchase(&l, PRICE, &anchor, 546, &pool, &FeePolicy::standard()).unwrap();
    assert_eq!(b.tx.inputs.len(), 4);
    assert_eq!(b.tx.inputs[0].previous_output.txid, [9; 32]);
    assert_eq!(b.tx.inputs[2].previous_output.txid, [1; 32]);
    assert_eq!(b.tx.inputs[3].previous_output.txid, [2; 32]);
    assert_eq!(b.tx.outputs[3].value, 13_900 - 13_812);
}

#[test]
fn outpoint_comparison() {
    assert!(same_outpoint(&op(1, 2), &op(1, 2)));
    assert!(!same_outpoint(&op(1, 2), &op(1, 3)));
    let mut other = op(1, 2);
    other.txid[31] = 0;
    assert!(!same_outpoint(&op(1, 2), &other));
}
