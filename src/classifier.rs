use vstd::prelude::*;
use crate::errors::ErrorKind;
use crate::model::{OutputModel, SpendableOutput, models};
use crate::selector::{PaymentSelection, outpoints_of, selects};

verus! {

/// `pat` occurs in `s` as a contiguous run.
pub open spec fn contains_spec(s: Seq<char>, pat: Seq<char>) -> bool {
    exists|i: int| 0 <= i && i + pat.len() <= s.len() && #[trigger] s.subrange(i, i + pat.len()) == pat
}

/// Relies on str::contains with a string pattern: true exactly where the
/// pattern occurs in the text.
#[verifier::external_body]
fn text_contains(s: &str, pat: &str) -> (r: bool)
    ensures
        r == contains_spec(s@, pat@),
{
    s.contains(pat)
}

/// The mark of an inscription on an output's page at the metadata source.
pub open spec fn inscription_mark() -> Seq<char> {
    seq!['i', 'n', 's', 'c', 'r', 'i', 'p', 't', 'i', 'o', 'n']
}

/// Whether an output must be kept out of payment, given its page at the
/// metadata source, or `None` where the lookup failed. A failed lookup counts
/// as protected: an artifact is never risked as payment.
pub fn is_utxo_inscription(page: &Option<String>) -> (r: bool)
    ensures
        page is None ==> r,
        page matches Some(p) ==> r == contains_spec(p@, inscription_mark()),
{
    match page {
        None => true,
        Some(p) => {
            let mark = "inscription";
            proof {
                reveal_strlit("inscription");
                assert(mark@ =~= inscription_mark());
            }
            text_contains(p.as_str(), mark)
        },
    }
}

/// The outputs of `u` whose flag in `p` is not set, in order.
pub open spec fn ordinary_spec(u: Seq<OutputModel>, p: Seq<bool>) -> Seq<OutputModel>
    decreases u.len(),
{
    if u.len() == 0 || p.len() != u.len() {
        Seq::empty()
    } else {
        let rest = ordinary_spec(u.drop_last(), p.drop_last());
        if p.last() {
            rest
        } else {
            rest.push(u.last())
        }
    }
}

/// Keeps the outputs that are not protected, in order: the candidate pool
/// for payment.
pub fn ordinary_outputs(utxos: &Vec<SpendableOutput>, protected: &Vec<bool>) -> (r: Vec<SpendableOutput>)
    requires
        utxos@.len() == protected@.len(),
    ensures
        models(r@) == ordinary_spec(models(utxos@), protected@),
{
    let ghost m = models(utxos@);
    let mut r: Vec<SpendableOutput> = Vec::new();
    let mut i: usize = 0;
    while i < utxos.len()
        invariant
            m == models(utxos@),
            m.len() == utxos@.len(),
            utxos@.len() == protected@.len(),
            0 <= i <= utxos@.len(),
            models(r@) == ordinary_spec(m.take(i as int), protected@.take(i as int)),
        decreases utxos@.len() - i,
    {
        proof {
            assert(m.take(i + 1).drop_last() =~= m.take(i as int));
            assert(protected@.take(i + 1).drop_last() =~= protected@.take(i as int));
        }
        if !protected[i] {
            let o = utxos[i].duplicate();
            let ghost before = r@;
            r.push(o);
            proof {
                assert(models(r@) =~= models(before).push(m[i as int]));
            }
        }
        i = i + 1;
    }
    proof {
        assert(m.take(i as int) =~= m);
        assert(protected@.take(i as int) =~= protected@);
    }
    r
}

proof fn lemma_ordinary_from_unprotected(u: Seq<OutputModel>, p: Seq<bool>, k: int)
    requires
        0 <= k < ordinary_spec(u, p).len(),
    ensures
        exists|i: int| 0 <= i < u.len() && !p[i] && #[trigger] u[i] == ordinary_spec(u, p)[k],
    decreases u.len(),
{
    let rest = ordinary_spec(u.drop_last(), p.drop_last());
    if k < rest.len() {
        lemma_ordinary_from_unprotected(u.drop_last(), p.drop_last(), k);
        let i = choose|i: int| 0 <= i < u.drop_last().len() && !p.drop_last()[i]
            && #[trigger] u.drop_last()[i] == rest[k];
        assert(u[i] == u.drop_last()[i]);
    } else {
        assert(u[u.len() - 1] == ordinary_spec(u, p)[k]);
    }
}

/// Payment never spends a protected output: every input of a selection made
/// from the ordinary outputs is an output whose protected flag is clear. With
/// a failed lookup flagged as protected, this holds whatever the metadata
/// source answered.
pub proof fn lemma_selection_excludes_protected(
    utxos: Seq<OutputModel>,
    protected: Seq<bool>,
    required: int,
    r: Result<PaymentSelection, ErrorKind>,
)
    requires
        utxos.len() == protected.len(),
        selects(ordinary_spec(utxos, protected), required, r),
    ensures
        r matches Ok(sel) ==> forall|j: int|
            0 <= j < sel.inputs@.len() ==> exists|i: int|
                0 <= i < utxos.len() && !protected[i] && utxos[i].outpoint == #[trigger] sel.inputs@[j],
{
    let pool = ordinary_spec(utxos, protected);
    if r is Ok {
        let sel = r->Ok_0;
        let k = choose|k: int| #![trigger outpoints_of(pool, k)]
            {
                &&& crate::selector::is_covering_prefix(pool, required, k)
                &&& sel.inputs@ == outpoints_of(pool, k)
                &&& sel.total == crate::model::total_value(pool.take(k))
                &&& sel.required == required
            };
        assert forall|j: int| 0 <= j < sel.inputs@.len() implies exists|i: int|
            0 <= i < utxos.len() && !protected[i] && utxos[i].outpoint == #[trigger] sel.inputs@[j] by {
            assert(sel.inputs@[j] == pool[j].outpoint);
            lemma_ordinary_from_unprotected(utxos, protected, j);
        }
    }
}

} // verus!
