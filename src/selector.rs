use vstd::prelude::*;
use crate::model::{OutPoint, OutputModel, SpendableOutput, models, total_value};
use crate::errors::ErrorKind;

verus! {

/// The fee estimates and anchor value that the required payment total is
/// computed from. Fees are fixed estimates in minor units, not a fee rate.
#[derive(Clone, Copy, Debug)]
pub struct FeePolicy {
    /// Value of an anchor output; outputs at or below it count as anchors.
    pub anchor_value: u64,
    /// Fee estimate per payment input.
    pub input_fee: u64,
    /// Fee estimate per output.
    pub output_fee: u64,
    /// Fee estimate for the transaction's fixed overhead.
    pub base_fee: u64,
    /// Fee of the self-payment that splits off a new anchor.
    pub split_fee: u64,
}

impl FeePolicy {
    /// The default estimates, in minor units at one unit per virtual byte.
    pub fn standard() -> (r: FeePolicy)
        ensures
            r.anchor_value == 1000,
            r.input_fee == 180,
            r.output_fee == 34,
            r.base_fee == 10,
            r.split_fee == 258,
    {
        FeePolicy { anchor_value: 1000, input_fee: 180, output_fee: 34, base_fee: 10, split_fee: 258 }
    }
}

/// What the buyer's payment inputs must cover: the price, the new anchor,
/// two inputs and three outputs of fees, and the overhead.
pub open spec fn required_total_spec(price: u64, policy: FeePolicy) -> int {
    price + policy.anchor_value + 2 * policy.input_fee + 3 * policy.output_fee + policy.base_fee
}

pub fn required_total(price: u64, policy: &FeePolicy) -> (r: u128)
    ensures
        r == required_total_spec(price, *policy),
        r <= u128::MAX - u64::MAX,
{
    price as u128 + policy.anchor_value as u128 + 2 * (policy.input_fee as u128) + 3
        * (policy.output_fee as u128) + policy.base_fee as u128
}

/// The payment inputs chosen by the selector.
#[derive(Debug)]
pub struct PaymentSelection {
    /// The outputs spent as payment, in the order of the pool.
    pub inputs: Vec<OutPoint>,
    /// Their summed value.
    pub total: u128,
    /// The total they had to reach.
    pub required: u128,
}

impl PaymentSelection {
    /// The selection covers what it had to, and the change fits in an output.
    pub open spec fn wf(&self) -> bool {
        &&& self.required <= self.total
        &&& self.total - self.required <= u64::MAX
    }
}

/// The outpoints of the first `k` outputs of the pool.
pub open spec fn outpoints_of(pool: Seq<OutputModel>, k: int) -> Seq<OutPoint> {
    pool.take(k).map_values(|o: OutputModel| o.outpoint)
}

/// `k` is the shortest prefix of the pool whose value reaches `required`.
pub open spec fn is_covering_prefix(pool: Seq<OutputModel>, required: int, k: int) -> bool {
    &&& 0 <= k <= pool.len()
    &&& total_value(pool.take(k)) >= required
    &&& forall|j: int| 0 <= j < k ==> #[trigger] total_value(pool.take(j)) < required
}

/// What the selector returns for a pool and a required total: the shortest
/// prefix that reaches the total, or `InsufficientFunds` where the whole
/// pool does not.
pub open spec fn selects(pool: Seq<OutputModel>, required: int, r: Result<PaymentSelection, ErrorKind>) -> bool {
    match r {
        Ok(sel) => exists|k: int|
            #![trigger outpoints_of(pool, k)]
            {
                &&& is_covering_prefix(pool, required, k)
                &&& sel.inputs@ == outpoints_of(pool, k)
                &&& sel.total == total_value(pool.take(k))
                &&& sel.required == required
            },
        Err(e) => total_value(pool) < required && e == ErrorKind::InsufficientFunds,
    }
}

proof fn lemma_take_last(pool: Seq<OutputModel>, i: int)
    requires
        0 <= i < pool.len(),
    ensures
        total_value(pool.take(i + 1)) == total_value(pool.take(i)) + pool[i].value,
{
    assert(pool.take(i + 1).drop_last() =~= pool.take(i));
}

proof fn lemma_prefix_monotone(pool: Seq<OutputModel>, j: int, k: int)
    requires
        0 <= j <= k <= pool.len(),
    ensures
        total_value(pool.take(j)) <= total_value(pool.take(k)),
    decreases k - j,
{
    if j < k {
        lemma_take_last(pool, k - 1);
        lemma_prefix_monotone(pool, j, k - 1);
    }
}

/// Greedy selection: takes outputs from the front of the pool until their
/// value reaches `required`. The pool is expected largest first, so the
/// fewest inputs are used; ties keep the pool's order.
pub fn select_payment(pool: &Vec<SpendableOutput>, required: u128) -> (r: Result<PaymentSelection, ErrorKind>)
    requires
        required <= u128::MAX - u64::MAX,
    ensures
        selects(models(pool@), required as int, r),
        r is Ok ==> r->Ok_0.wf(),
{
    let ghost m = models(pool@);
    let mut inputs: Vec<OutPoint> = Vec::new();
    let mut total: u128 = 0;
    let mut i: usize = 0;
    proof {
        assert(m.take(0) =~= Seq::<OutputModel>::empty());
        assert(inputs@ =~= outpoints_of(m, 0));
    }
    while i < pool.len() && total < required
        invariant
            m == models(pool@),
            m.len() == pool@.len(),
            0 <= i <= pool.len(),
            total == total_value(m.take(i as int)),
            inputs@ == outpoints_of(m, i as int),
            forall|j: int| 0 <= j < i ==> #[trigger] total_value(m.take(j)) < required,
            i > 0 ==> total - m[i - 1].value < required,
            required <= u128::MAX - u64::MAX,
        decreases pool.len() - i,
    {
        let o = &pool[i];
        proof {
            lemma_take_last(m, i as int);
            assert(m[i as int] == pool@[i as int]@);
            assert(outpoints_of(m, i + 1) =~= outpoints_of(m, i as int).push(o.outpoint));
        }
        inputs.push(o.outpoint);
        total = total + o.value as u128;
        i = i + 1;
    }
    if total < required {
        proof {
            assert(m.take(i as int) =~= m);
        }
        Err(ErrorKind::InsufficientFunds)
    } else {
        proof {
            assert(is_covering_prefix(m, required as int, i as int));
        }
        Ok(PaymentSelection { inputs, total, required })
    }
}

/// Values never increase along the sequence.
pub open spec fn largest_first(s: Seq<OutputModel>) -> bool {
    forall|i: int, j: int| 0 <= i < j < s.len() ==> #[trigger] s[i].value >= #[trigger] s[j].value
}

fn first_largest(v: &Vec<SpendableOutput>) -> (r: usize)
    requires
        v@.len() > 0,
    ensures
        0 <= r < v@.len(),
        forall|j: int| 0 <= j < v@.len() ==> v@[r as int].value >= #[trigger] v@[j].value,
{
    let mut best: usize = 0;
    let mut i: usize = 1;
    while i < v.len()
        invariant
            0 <= best < i <= v@.len(),
            forall|j: int| 0 <= j < i ==> v@[best as int].value >= #[trigger] v@[j].value,
        decreases v@.len() - i,
    {
        if v[i].value > v[best].value {
            best = i;
        }
        i = i + 1;
    }
    best
}

/// Orders a candidate pool largest first, keeping the outputs as they are.
/// Among equal values the earlier output comes first.
pub fn order_by_value_descending(v: Vec<SpendableOutput>) -> (r: Vec<SpendableOutput>)
    ensures
        largest_first(models(r@)),
        models(r@).to_multiset() == models(v@).to_multiset(),
{
    broadcast use vstd::seq_lib::group_to_multiset_ensures, vstd::multiset::group_multiset_axioms;
    let ghost whole = models(v@).to_multiset();
    let mut rest = v;
    let mut out: Vec<SpendableOutput> = Vec::new();
    assert(models(out@).to_multiset().add(models(rest@).to_multiset()) =~= whole);
    while rest.len() > 0
        invariant
            models(out@).to_multiset().add(models(rest@).to_multiset()) == whole,
            largest_first(models(out@)),
            forall|i: int, j: int|
                0 <= i < out@.len() && 0 <= j < rest@.len() ==> #[trigger] out@[i].value
                    >= #[trigger] rest@[j].value,
        decreases rest@.len(),
    {
        let i = first_largest(&rest);
        let ghost before_rest = rest@;
        let ghost before_out = out@;
        let x = rest.remove(i);
        proof {
            assert(models(rest@) =~= models(before_rest).remove(i as int));
            assert(models(before_rest)[i as int] == x@);
        }
        out.push(x);
        proof {
            assert(models(out@) =~= models(before_out).push(x@));
            vstd::seq_lib::to_multiset_remove(models(before_rest), i as int);
            vstd::seq_lib::to_multiset_build(models(before_out), x@);
            assert(models(before_rest).contains(x@)) by {
                assert(models(before_rest)[i as int] == x@);
            }
            vstd::seq_lib::to_multiset_contains(models(before_rest), x@);
            assert(models(out@).to_multiset().add(models(rest@).to_multiset()) =~= whole);
            assert forall|a: int, b: int| 0 <= a < b < models(out@).len() implies
                #[trigger] models(out@)[a].value >= #[trigger] models(out@)[b].value by {
                if b == out@.len() - 1 {
                    assert(out@[a].value >= before_rest[i as int].value);
                } else {
                    assert(models(before_out)[a].value >= models(before_out)[b].value);
                }
            }
            assert forall|a: int, b: int| 0 <= a < out@.len() && 0 <= b < rest@.len() implies
                #[trigger] out@[a].value >= #[trigger] rest@[b].value by {
                if a == out@.len() - 1 {
                    if b < i {
                        assert(rest@[b] == before_rest[b]);
                    } else {
                        assert(rest@[b] == before_rest[b + 1]);
                    }
                } else {
                    if b < i {
                        assert(rest@[b] == before_rest[b]);
                    } else {
                        assert(rest@[b] == before_rest[b + 1]);
                    }
                }
            }
        }
    }
    assert(models(rest@) =~= Seq::<OutputModel>::empty());
    assert(models(out@).to_multiset() =~= whole);
    out
}

/// Selection is a function of the pool and the required total: two results
/// that both meet the selector's contract are the same selection.
pub proof fn lemma_selection_deterministic(
    pool: Seq<OutputModel>,
    required: int,
    a: Result<PaymentSelection, ErrorKind>,
    b: Result<PaymentSelection, ErrorKind>,
)
    requires
        selects(pool, required, a),
        selects(pool, required, b),
    ensures
        a is Ok <==> b is Ok,
        a is Ok ==> a->Ok_0.inputs@ == b->Ok_0.inputs@ && a->Ok_0.total == b->Ok_0.total,
        a is Err ==> a == b,
{
    if a is Ok && b is Ok {
        let ka = choose|k: int| #![trigger outpoints_of(pool, k)]
            is_covering_prefix(pool, required, k) && a->Ok_0.inputs@ == outpoints_of(pool, k)
                && a->Ok_0.total == total_value(pool.take(k));
        let kb = choose|k: int| #![trigger outpoints_of(pool, k)]
            is_covering_prefix(pool, required, k) && b->Ok_0.inputs@ == outpoints_of(pool, k)
                && b->Ok_0.total == total_value(pool.take(k));
        if ka < kb {
            assert(total_value(pool.take(ka)) < required);
        } else if kb < ka {
            assert(total_value(pool.take(kb)) < required);
        }
    } else if a is Ok {
        let ka = choose|k: int| #![trigger outpoints_of(pool, k)]
            is_covering_prefix(pool, required, k) && a->Ok_0.inputs@ == outpoints_of(pool, k);
        lemma_prefix_monotone(pool, ka, pool.len() as int);
        assert(pool.take(pool.len() as int) =~= pool);
    } else if b is Ok {
        let kb = choose|k: int| #![trigger outpoints_of(pool, k)]
            is_covering_prefix(pool, required, k) && b->Ok_0.inputs@ == outpoints_of(pool, k);
        lemma_prefix_monotone(pool, kb, pool.len() as int);
        assert(pool.take(pool.len() as int) =~= pool);
    }
}

} // verus!
