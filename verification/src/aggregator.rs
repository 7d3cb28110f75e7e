//! Concurrent aggregator, merge side.
//!
//! A listing page yields an ordered list of detail-page URLs. One fetch is
//! issued per entry and runs concurrently with the others, so completions
//! arrive in whatever order the network returns them; each completion
//! carries the index of its originating entry. The merge keeps one record
//! per successful fetch and drops failures: the output's order is
//! completion order, not submission order, but the set of indices present
//! is exactly the set of indices that succeeded. The fetch loop itself is
//! I/O and lives with the caller; this module holds the job and outcome
//! model and the verified merge.

use vstd::prelude::*;

verus! {

use vstd::string::StringExecFns;

/// One fetch to submit: the entry's position in the listing and its URL.
pub struct AggregationJob {
    pub index: usize,
    pub url: String,
}

/// One merged record: the originating index and the fetched body.
pub struct AggregationResult {
    pub index: usize,
    pub body: String,
}

/// What merging a sequence of completion outcomes yields: one record per
/// outcome that carries a body, in completion order.
pub open spec fn spec_merge(outs: Seq<(usize, Option<String>)>) -> Seq<AggregationResult>
    decreases outs.len(),
{
    if outs.len() == 0 {
        seq![]
    } else {
        let rest = spec_merge(outs.drop_last());
        match outs.last().1 {
            Some(body) => rest.push(AggregationResult { index: outs.last().0, body }),
            None => rest,
        }
    }
}

/// How many outcomes carry a body.
pub open spec fn success_count(outs: Seq<(usize, Option<String>)>) -> int
    decreases outs.len(),
{
    if outs.len() == 0 {
        0
    } else {
        success_count(outs.drop_last()) + if outs.last().1 is Some {
            1int
        } else {
            0int
        }
    }
}

/// The set of indices of the outcomes that carry a body.
pub open spec fn success_index_set(outs: Seq<(usize, Option<String>)>) -> Set<usize>
    decreases outs.len(),
{
    if outs.len() == 0 {
        Set::empty()
    } else {
        let rest = success_index_set(outs.drop_last());
        if outs.last().1 is Some {
            rest.insert(outs.last().0)
        } else {
            rest
        }
    }
}

/// The set of indices a merged collection carries.
pub open spec fn result_index_set(rs: Seq<AggregationResult>) -> Set<usize>
    decreases rs.len(),
{
    if rs.len() == 0 {
        Set::empty()
    } else {
        result_index_set(rs.drop_last()).insert(rs.last().index)
    }
}

/// Merges completion outcomes: one record per successful fetch, in
/// completion order; a failed fetch contributes nothing.
#[verifier::loop_isolation(false)]
pub fn merge_outcomes(outcomes: Vec<(usize, Option<String>)>) -> (r: Vec<AggregationResult>)
    ensures
        r@ == spec_merge(outcomes@),
{
    let n = outcomes.len();
    let mut r: Vec<AggregationResult> = Vec::new();
    let mut i: usize = 0;
    proof {
        assert(outcomes@.take(0) =~= Seq::<(usize, Option<String>)>::empty());
    }
    while i < n
        invariant
            n == outcomes@.len(),
            i <= n,
            r@ == spec_merge(outcomes@.take(i as int)),
        decreases n - i,
    {
        let (index, body) = outcomes_entry(&outcomes, i);
        match body {
            Some(b) => {
                r.push(AggregationResult { index, body: b });
            },
            None => {},
        }
        i = i + 1;
        proof {
            let taken = outcomes@.take(i as int);
            assert(taken.drop_last() =~= outcomes@.take(i - 1));
            assert(taken.last() == outcomes@[i - 1]);
        }
    }
    proof {
        assert(outcomes@.take(n as int) =~= outcomes@);
    }
    r
}

/// Reads one outcome out of the list, cloning its body.
fn outcomes_entry(outcomes: &Vec<(usize, Option<String>)>, i: usize) -> (r: (
    usize,
    Option<String>,
))
    requires
        i < outcomes@.len(),
    ensures
        r.0 == outcomes@[i as int].0,
        r.1 == outcomes@[i as int].1,
{
    let entry = &outcomes[i];
    let body = match &entry.1 {
        Some(b) => Some(crate::manifest::clone_string(b)),
        None => None,
    };
    (entry.0, body)
}

/// Aggregation is complete without preserving order: for any completion
/// outcomes, the merged collection has exactly one element per successful
/// outcome, and the set of indices present in it equals the set of the
/// successful outcomes' indices — whatever order the completions came in.
pub proof fn lemma_aggregation_complete(outs: Seq<(usize, Option<String>)>)
    ensures
        spec_merge(outs).len() == success_count(outs),
        result_index_set(spec_merge(outs)) == success_index_set(outs),
    decreases outs.len(),
{
    if outs.len() == 0 {
        assert(result_index_set(spec_merge(outs)) =~= success_index_set(outs));
    } else {
        lemma_aggregation_complete(outs.drop_last());
        let rest = spec_merge(outs.drop_last());
        match outs.last().1 {
            Some(body) => {
                let whole = rest.push(AggregationResult { index: outs.last().0, body });
                assert(whole.drop_last() =~= rest);
                assert(result_index_set(spec_merge(outs)) =~= success_index_set(outs));
            },
            None => {
                assert(result_index_set(spec_merge(outs)) =~= success_index_set(outs));
            },
        }
    }
}

/// Builds one job per listing id, in listing order: job `i` carries index
/// `i` and the URL `base/id`.
#[verifier::loop_isolation(false)]
pub fn make_jobs(base: &str, ids: &Vec<String>) -> (r: Vec<AggregationJob>)
    ensures
        r@.len() == ids@.len(),
        forall|i: int|
            0 <= i < r@.len() ==> (#[trigger] r@[i]).index == i && r@[i].url@ == base@
                + seq!['/'] + ids@[i]@,
{
    let n = ids.len();
    let mut r: Vec<AggregationJob> = Vec::new();
    let mut i: usize = 0;
    proof {
        reveal_strlit("/");
        assert("/"@ =~= seq!['/']);
    }
    while i < n
        invariant
            n == ids@.len(),
            i <= n,
            r@.len() == i,
            forall|k: int|
                0 <= k < i ==> (#[trigger] r@[k]).index == k && r@[k].url@ == base@
                    + seq!['/'] + ids@[k]@,
        decreases n - i,
    {
        let mut url = base.to_owned();
        url.append("/");
        url.append(ids[i].as_str());
        r.push(AggregationJob { index: i, url });
        i = i + 1;
    }
    r
}

} // verus!
