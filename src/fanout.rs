//! Fan-out of one amount over every sender and recipient pair, and the
//! aggregation of what the concurrent attempts came to.
use crate::transfer::{TransferError, TransferRequest, TxStatus};
use vstd::prelude::*;

verus! {

/// The request at `k` of a plan over `m` recipients is for sender `k / m` and recipient `k % m`.
pub open spec fn planned(senders: Seq<String>, recipients: Seq<String>, amount: u64, k: int) -> TransferRequest {
    TransferRequest {
        sender_secret: senders[k / recipients.len() as int],
        recipient: recipients[k % recipients.len() as int],
        amount,
    }
}

/// One request per sender and recipient pair, senders outermost.
pub fn plan(senders: &Vec<String>, recipients: &Vec<String>, amount: u64) -> (r: Vec<TransferRequest>)
    requires
        senders@.len() * recipients@.len() <= usize::MAX,
    ensures
        r@.len() == senders@.len() * recipients@.len(),
        forall|k: int| 0 <= k < r@.len() ==> #[trigger] r@[k] == planned(senders@, recipients@, amount, k),
{
    let n = senders.len();
    let m = recipients.len();
    let mut out: Vec<TransferRequest> = Vec::new();
    let mut i: usize = 0;
    while i < n
        invariant
            n == senders@.len(),
            m == recipients@.len(),
            n * m <= usize::MAX,
            i <= n,
            out@.len() == i * m,
            forall|k: int| 0 <= k < out@.len() ==> #[trigger] out@[k] == planned(senders@, recipients@, amount, k),
        decreases n - i,
    {
        let mut j: usize = 0;
        while j < m
            invariant
                n == senders@.len(),
                m == recipients@.len(),
                n * m <= usize::MAX,
                i < n,
                j <= m,
                out@.len() == i * m + j,
                forall|k: int| 0 <= k < out@.len() ==> #[trigger] out@[k] == planned(senders@, recipients@, amount, k),
            decreases m - j,
        {
            let k: Ghost<int> = Ghost((i * m + j) as int);
            proof {
                assert(k@ / m as int == i as int && k@ % m as int == j as int) by (nonlinear_arith)
                    requires
                        k@ == i * m + j,
                        j < m,
                ;
            }
            out.push(
                TransferRequest {
                    sender_secret: senders[i].clone(),
                    recipient: recipients[j].clone(),
                    amount,
                },
            );
            j = j + 1;
        }
        proof {
            assert((i + 1) * m <= n * m) by (nonlinear_arith)
                requires
                    i < n,
            ;
            assert((i + 1) * m == i * m + m) by (nonlinear_arith);
        }
        i = i + 1;
    }
    out
}

/// A transfer that reached the ledger, as reported to the caller.
#[derive(Debug)]
pub struct TransferOutcome {
    /// Index of the pair in the plan.
    pub pair: usize,
    pub sender: String,
    pub recipient: String,
    pub signature: String,
    pub status: TxStatus,
    pub elapsed_ms: u64,
}

/// What one spawned attempt came to.
#[derive(Debug)]
pub enum AttemptResult {
    Settled(TransferOutcome),
    Error(TransferError),
    /// The task itself failed to run to completion.
    Fault(String),
}

#[derive(Debug)]
pub struct Attempt {
    pub pair: usize,
    pub result: AttemptResult,
}

/// Why an attempt counts as failed.
#[derive(Debug)]
pub enum FailureCause {
    /// The transaction settled in a status other than Success.
    NotSucceeded(TransferOutcome),
    Transfer(TransferError),
    Fault(String),
}

#[derive(Debug)]
pub struct Failure {
    pub pair: usize,
    pub cause: FailureCause,
}

/// Successes and failures of a fan-out; each count is the length of its list.
pub struct Report {
    pub successes: Vec<TransferOutcome>,
    pub failures: Vec<Failure>,
}

pub open spec fn is_success(a: Attempt) -> bool {
    a.result matches AttemptResult::Settled(o) && o.status is Success
}

pub open spec fn failure_of(a: Attempt) -> Failure {
    Failure {
        pair: a.pair,
        cause: match a.result {
            AttemptResult::Settled(o) => FailureCause::NotSucceeded(o),
            AttemptResult::Error(e) => FailureCause::Transfer(e),
            AttemptResult::Fault(c) => FailureCause::Fault(c),
        },
    }
}

/// The settled outcomes with status Success, in the order given.
pub open spec fn successes_of(s: Seq<Attempt>) -> Seq<TransferOutcome>
    decreases s.len(),
{
    if s.len() == 0 {
        Seq::empty()
    } else if is_success(s.last()) {
        successes_of(s.drop_last()).push(s.last().result->Settled_0)
    } else {
        successes_of(s.drop_last())
    }
}

/// Every other attempt as a failure, in the order given.
pub open spec fn failures_of(s: Seq<Attempt>) -> Seq<Failure>
    decreases s.len(),
{
    if s.len() == 0 {
        Seq::empty()
    } else if is_success(s.last()) {
        failures_of(s.drop_last())
    } else {
        failures_of(s.drop_last()).push(failure_of(s.last()))
    }
}

fn classify_attempt(a: Attempt) -> (r: Result<TransferOutcome, Failure>)
    ensures
        is_success(a) ==> r == Ok::<TransferOutcome, Failure>(a.result->Settled_0),
        !is_success(a) ==> r == Err::<TransferOutcome, Failure>(failure_of(a)),
{
    let pair = a.pair;
    match a.result {
        AttemptResult::Settled(o) => match o.status {
            TxStatus::Success => Ok(o),
            _ => Err(Failure { pair, cause: FailureCause::NotSucceeded(o) }),
        },
        AttemptResult::Error(e) => Err(Failure { pair, cause: FailureCause::Transfer(e) }),
        AttemptResult::Fault(c) => Err(Failure { pair, cause: FailureCause::Fault(c) }),
    }
}

/// Sorts every attempt into the successes or the failures, dropping none: only a
/// settled Success counts as a success.
pub fn aggregate(attempts: Vec<Attempt>) -> (r: Report)
    ensures
        r.successes@ == successes_of(attempts@),
        r.failures@ == failures_of(attempts@),
{
    let ghost all = attempts@;
    let mut rest = attempts;
    let mut successes: Vec<TransferOutcome> = Vec::new();
    let mut failures: Vec<Failure> = Vec::new();
    let total = rest.len();
    let mut k: usize = 0;
    while rest.len() > 0
        invariant
            all.len() == total,
            k + rest@.len() == all.len(),
            rest@ == all.subrange(k as int, all.len() as int),
            successes@ == successes_of(all.subrange(0, k as int)),
            failures@ == failures_of(all.subrange(0, k as int)),
        decreases rest@.len(),
    {
        let a = rest.remove(0);
        proof {
            assert(a == all[k as int]);
            assert(all.subrange(0, k + 1).drop_last() =~= all.subrange(0, k as int));
            assert(rest@ =~= all.subrange(k + 1, all.len() as int));
        }
        match classify_attempt(a) {
            Ok(o) => successes.push(o),
            Err(f) => failures.push(f),
        }
        k = k + 1;
    }
    proof {
        assert(all.subrange(0, k as int) =~= all);
    }
    Report { successes, failures }
}

pub open spec fn attempts_for(s: Seq<Attempt>, p: usize) -> nat
    decreases s.len(),
{
    if s.len() == 0 {
        0
    } else {
        attempts_for(s.drop_last(), p) + if s.last().pair == p { 1nat } else { 0nat }
    }
}

pub open spec fn successes_for(s: Seq<TransferOutcome>, p: usize) -> nat
    decreases s.len(),
{
    if s.len() == 0 {
        0
    } else {
        successes_for(s.drop_last(), p) + if s.last().pair == p { 1nat } else { 0nat }
    }
}

pub open spec fn failures_for(s: Seq<Failure>, p: usize) -> nat
    decreases s.len(),
{
    if s.len() == 0 {
        0
    } else {
        failures_for(s.drop_last(), p) + if s.last().pair == p { 1nat } else { 0nat }
    }
}

proof fn lemma_split_counts(s: Seq<Attempt>, p: usize)
    requires
        forall|i: int| 0 <= i < s.len() && #[trigger] is_success(s[i]) ==> s[i].result->Settled_0.pair == s[i].pair,
    ensures
        successes_for(successes_of(s), p) + failures_for(failures_of(s), p) == attempts_for(s, p),
        successes_of(s).len() + failures_of(s).len() == s.len(),
    decreases s.len(),
{
    if s.len() > 0 {
        let t = s.drop_last();
        assert forall|i: int| 0 <= i < t.len() && #[trigger] is_success(t[i]) implies t[i].result->Settled_0.pair == t[i].pair by {
            assert(t[i] == s[i]);
        }
        lemma_split_counts(t, p);
        assert(is_success(s.last()) ==> s.last().result->Settled_0.pair == s.last().pair) by {
            if is_success(s.last()) {
                assert(is_success(s[s.len() - 1]));
            }
        }
        if is_success(s.last()) {
            assert(successes_of(s).drop_last() =~= successes_of(t));
        } else {
            assert(failures_of(s).drop_last() =~= failures_of(t));
        }
    }
}

/// Aggregation neither drops nor repeats an attempt: when each of `n` pairs was
/// attempted exactly once, and each settled outcome carries its attempt's pair, the
/// successes and failures hold `n` entries and every pair exactly once among them.
pub proof fn lemma_every_pair_once(attempts: Seq<Attempt>, n: nat)
    requires
        attempts.len() == n,
        forall|p: usize| p < n ==> #[trigger] attempts_for(attempts, p) == 1,
        forall|i: int| 0 <= i < attempts.len() && #[trigger] is_success(attempts[i])
            ==> attempts[i].result->Settled_0.pair == attempts[i].pair,
    ensures
        successes_of(attempts).len() + failures_of(attempts).len() == n,
        forall|p: usize| p < n ==> #[trigger] successes_for(successes_of(attempts), p)
            + failures_for(failures_of(attempts), p) == 1,
{
    lemma_split_counts(attempts, 0);
    assert forall|p: usize| p < n implies #[trigger] successes_for(successes_of(attempts), p)
        + failures_for(failures_of(attempts), p) == 1 by {
        lemma_split_counts(attempts, p);
    }
}

} // verus!
