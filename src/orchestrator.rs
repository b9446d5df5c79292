use vstd::prelude::*;
use crate::assembler::{ListingOffer, PurchaseBundle, assemble_purchase, listing_check_spec, purchase_spec};
use crate::errors::ErrorKind;
use crate::classifier::{ordinary_outputs, ordinary_spec};
use crate::model::{OutPoint, OutputModel, SpendableOutput, models, same_outpoint, same_outpoint_spec};
use crate::selector::{FeePolicy, PaymentSelection, required_total, required_total_spec, select_payment, selects};

verus! {

/// The steps of one trade attempt, in order, and its two ends.
#[derive(Clone, Copy, Debug, PartialEq, Eq, Structural)]
pub enum Stage {
    Idle,
    LocateArtifact,
    BuildListing,
    CheckBuyerFunds,
    ProvisionAnchor,
    SelectPayment,
    AssemblePurchase,
    Finalize,
    Broadcast,
    Done,
    Aborted,
}

/// The step that follows `s` when it succeeds.
pub open spec fn successor(s: Stage) -> Stage {
    match s {
        Stage::Idle => Stage::LocateArtifact,
        Stage::LocateArtifact => Stage::BuildListing,
        Stage::BuildListing => Stage::CheckBuyerFunds,
        Stage::CheckBuyerFunds => Stage::ProvisionAnchor,
        Stage::ProvisionAnchor => Stage::SelectPayment,
        Stage::SelectPayment => Stage::AssemblePurchase,
        Stage::AssemblePurchase => Stage::Finalize,
        Stage::Finalize => Stage::Broadcast,
        Stage::Broadcast => Stage::Done,
        Stage::Done => Stage::Done,
        Stage::Aborted => Stage::Aborted,
    }
}

/// The trade's next stage after stage `s` succeeded or failed. There are no
/// retries: a failure aborts the trade, and the two ends stay where they are.
pub fn next_stage(s: Stage, succeeded: bool) -> (r: Stage)
    ensures
        s == Stage::Done || s == Stage::Aborted ==> r == s,
        s != Stage::Done && s != Stage::Aborted ==> r == if succeeded {
            successor(s)
        } else {
            Stage::Aborted
        },
{
    match s {
        Stage::Done => Stage::Done,
        Stage::Aborted => Stage::Aborted,
        _ => if !succeeded {
            Stage::Aborted
        } else {
            match s {
                Stage::Idle => Stage::LocateArtifact,
                Stage::LocateArtifact => Stage::BuildListing,
                Stage::BuildListing => Stage::CheckBuyerFunds,
                Stage::CheckBuyerFunds => Stage::ProvisionAnchor,
                Stage::ProvisionAnchor => Stage::SelectPayment,
                Stage::SelectPayment => Stage::AssemblePurchase,
                Stage::AssemblePurchase => Stage::Finalize,
                Stage::Finalize => Stage::Broadcast,
                _ => Stage::Done,
            }
        },
    }
}

/// Why a trade attempt was aborted, and at which stage.
#[derive(Clone, Copy, Debug, PartialEq, Eq, Structural)]
pub struct TradeError {
    pub stage: Stage,
    pub kind: ErrorKind,
}

/// Checks that the buyer's balance covers the price before anything is
/// built for the buyer.
pub fn check_buyer_funds(balance: u64, price: u64) -> (r: Result<(), TradeError>)
    ensures
        r is Ok <==> balance >= price,
        r is Err ==> r->Err_0 == (TradeError { stage: Stage::CheckBuyerFunds, kind: ErrorKind::InsufficientFunds }),
{
    if balance < price {
        Err(TradeError { stage: Stage::CheckBuyerFunds, kind: ErrorKind::InsufficientFunds })
    } else {
        Ok(())
    }
}

/// Marks the outputs of the pool that are the anchor.
pub open spec fn anchor_flags(pool: Seq<OutputModel>, anchor: OutPoint) -> Seq<bool> {
    Seq::new(pool.len(), |i: int| same_outpoint_spec(pool[i].outpoint, anchor))
}

/// The buyer's candidate pool less the anchor, which the purchase already
/// spends as its first input.
pub open spec fn payment_pool(pool: Seq<OutputModel>, anchor: OutPoint) -> Seq<OutputModel> {
    ordinary_spec(pool, anchor_flags(pool, anchor))
}

fn without_anchor(pool: &Vec<SpendableOutput>, anchor: &OutPoint) -> (r: Vec<SpendableOutput>)
    ensures
        models(r@) == payment_pool(models(pool@), *anchor),
{
    let ghost m = models(pool@);
    let mut flags: Vec<bool> = Vec::new();
    let mut i: usize = 0;
    while i < pool.len()
        invariant
            m == models(pool@),
            0 <= i <= pool@.len(),
            flags@ == anchor_flags(m, *anchor).take(i as int),
        decreases pool@.len() - i,
    {
        let f = same_outpoint(&pool[i].outpoint, anchor);
        flags.push(f);
        i = i + 1;
        assert(flags@ =~= anchor_flags(m, *anchor).take(i as int));
    }
    assert(flags@ =~= anchor_flags(m, *anchor));
    ordinary_outputs(pool, &flags)
}

/// Selects the payment from the buyer's candidate pool less the anchor,
/// largest first, and assembles the purchase on the listing. Selection failing aborts at
/// `SelectPayment`; a listing that does not check aborts at
/// `AssemblePurchase`.
pub fn plan_purchase(
    listing: &ListingOffer,
    price: u64,
    anchor: &SpendableOutput,
    artifact_value: u64,
    pool: &Vec<SpendableOutput>,
    policy: &FeePolicy,
) -> (r: Result<PurchaseBundle, TradeError>)
    requires
        artifact_value + anchor.value <= u64::MAX,
    ensures
        ({
            let required = required_total_spec(price, *policy);
            exists|sel: Result<PaymentSelection, ErrorKind>|
                #![trigger selects(payment_pool(models(pool@), anchor.outpoint), required, sel)]
                {
                    &&& selects(payment_pool(models(pool@), anchor.outpoint), required, sel)
                    &&& match sel {
                        Err(_) => r == Err::<PurchaseBundle, TradeError>(
                            TradeError { stage: Stage::SelectPayment, kind: ErrorKind::InsufficientFunds },
                        ),
                        Ok(s) => match listing_check_spec(listing.tx@, listing.sighash, price) {
                            Err(k) => r == Err::<PurchaseBundle, TradeError>(
                                TradeError { stage: Stage::AssemblePurchase, kind: k },
                            ),
                            Ok(_) => r matches Ok(b) && b.seller_input == 1 && b.tx@ == purchase_spec(
                                listing.tx@,
                                anchor@,
                                artifact_value,
                                s.inputs@,
                                policy.anchor_value,
                                (s.total - s.required) as u64,
                            ),
                        },
                    }
                }
        }),
{
    let required = required_total(price, policy);
    let candidates = without_anchor(pool, &anchor.outpoint);
    let sel = select_payment(&candidates, required);
    match sel {
        Err(_) => Err(TradeError { stage: Stage::SelectPayment, kind: ErrorKind::InsufficientFunds }),
        Ok(s) => match assemble_purchase(listing, price, anchor, artifact_value, &s, policy.anchor_value) {
            Err(k) => Err(TradeError { stage: Stage::AssemblePurchase, kind: k }),
            Ok(b) => Ok(b),
        },
    }
}

} // verus!
