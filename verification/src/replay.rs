//! Regression comparison of two replays: how many decisions agree.
use vstd::prelude::*;
use crate::auth::text_eq;

verus! {

/// The part of a replayed decision that a comparison looks at.
#[derive(Debug, Clone)]
pub struct DecisionKey {
    pub ts_src: u64,
    /// `ENTER` or `REJECT`.
    pub action: String,
    pub reject_reason: Option<String>,
}

/// Two decisions agree: same time, same action, same reason.
pub open spec fn same_decision(a: DecisionKey, b: DecisionKey) -> bool {
    a.ts_src == b.ts_src && a.action@ == b.action@ && match (a.reject_reason, b.reject_reason) {
        (None, None) => true,
        (Some(x), Some(y)) => x@ == y@,
        _ => false,
    }
}

/// Number of agreeing positions among the first `n`.
pub open spec fn agreeing(a: Seq<DecisionKey>, b: Seq<DecisionKey>, n: int) -> nat
    decreases n,
{
    if n <= 0 {
        0
    } else {
        agreeing(a, b, n - 1) + if same_decision(a[n - 1], b[n - 1]) { 1nat } else { 0nat }
    }
}

fn decision_eq(a: &DecisionKey, b: &DecisionKey) -> (r: bool)
    ensures
        r == same_decision(*a, *b),
{
    if a.ts_src != b.ts_src || !text_eq(a.action.as_str(), b.action.as_str()) {
        return false;
    }
    match (&a.reject_reason, &b.reject_reason) {
        (None, None) => true,
        (Some(x), Some(y)) => text_eq(x.as_str(), y.as_str()),
        _ => false,
    }
}

/// Number of positions where the two replays agree, over the shorter one.
pub fn count_matching(a: &Vec<DecisionKey>, b: &Vec<DecisionKey>) -> (r: usize)
    ensures
        r == agreeing(a@, b@, if a@.len() < b@.len() { a@.len() as int } else { b@.len() as int }),
{
    let n = if a.len() < b.len() { a.len() } else { b.len() };
    let mut count: usize = 0;
    let mut i: usize = 0;
    while i < n
        invariant
            n <= a@.len(),
            n <= b@.len(),
            n == (if a@.len() < b@.len() { a@.len() } else { b@.len() }),
            i <= n,
            count <= i,
            count == agreeing(a@, b@, i as int),
        decreases n - i,
    {
        if decision_eq(&a[i], &b[i]) {
            count = count + 1;
        }
        i = i + 1;
    }
    count
}

} // verus!
