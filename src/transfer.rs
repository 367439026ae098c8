//! The per-transfer state machine: balance check, build and sign, submit, confirm.
//!
//! The machine decides; the caller performs each requested action against the
//! ledger and feeds back what came of it.
use crate::keys::{resolve, resolved_key, Identity};
use vstd::prelude::*;
use vstd::string::StringSliceAdditionalSpecFns;

verus! {

/// What one transfer asks for: who pays, who receives, and how much in minor units.
#[derive(Debug)]
pub struct TransferRequest {
    pub sender_secret: String,
    pub recipient: String,
    pub amount: u64,
}

/// How a submitted transaction stands after its one status poll.
#[derive(Debug)]
pub enum TxStatus {
    Success,
    Failed(String),
    Unknown,
}

/// A reply of the ledger to a status poll.
#[derive(Debug)]
pub enum StatusReport {
    /// No status observed yet.
    Pending,
    /// Observed, without an on-chain error.
    Confirmed,
    /// Observed, with the on-chain error attached.
    Errored(String),
}

/// Why a transfer attempt ended without a settled transaction.
#[derive(Debug)]
pub enum TransferError {
    /// The sender's secret could not be resolved.
    Decode,
    /// The recipient address could not be read.
    InvalidRecipient(String),
    /// The observed balance is below the amount.
    InsufficientFunds { required: u64, available: u64 },
    /// A ledger query or the submission failed in transit.
    Transport(String),
    /// The ledger itself rejected the transaction.
    OnChain(String),
}

/// Where a transfer stands.
#[derive(Debug)]
pub enum Stage {
    BalanceCheck,
    BuildAndSign,
    Submit,
    Confirm { signature: String },
    Settled { signature: String, status: TxStatus },
    Aborted(TransferError),
}

/// What the ledger side reports back to the machine.
#[derive(Debug)]
pub enum Event {
    Balance(u64),
    BlockRef(Vec<u8>),
    Submitted(String),
    Rejected(String),
    TransportFailed(String),
    Status(StatusReport),
}

/// What the machine asks the caller to do next.
#[derive(Debug)]
pub enum Action {
    QueryBalance,
    FetchBlockRef,
    /// Build the single transfer instruction, sign it against this block reference, and submit it.
    SignAndSubmit { block_ref: Vec<u8> },
    PollStatus { signature: String },
    /// The attempt is over; nothing more is to be done.
    Finish,
    /// The event does not belong to this stage and is ignored.
    Ignore,
}

pub open spec fn is_terminal(s: Stage) -> bool {
    s is Settled || s is Aborted
}

/// The transition table of one transfer of `amount`.
pub open spec fn transition(s: Stage, amount: u64, e: Event) -> (Stage, Action) {
    if is_terminal(s) {
        (s, Action::Ignore)
    } else {
        match (s, e) {
            (_, Event::TransportFailed(c)) => (Stage::Aborted(TransferError::Transport(c)), Action::Finish),
            (Stage::BalanceCheck, Event::Balance(b)) => if b < amount {
                (
                    Stage::Aborted(TransferError::InsufficientFunds { required: amount, available: b }),
                    Action::Finish,
                )
            } else {
                (Stage::BuildAndSign, Action::FetchBlockRef)
            },
            (Stage::BuildAndSign, Event::BlockRef(r)) => (Stage::Submit, Action::SignAndSubmit { block_ref: r }),
            (Stage::Submit, Event::Submitted(sig)) => (
                Stage::Confirm { signature: sig },
                Action::PollStatus { signature: sig },
            ),
            (Stage::Submit, Event::Rejected(c)) => (Stage::Aborted(TransferError::OnChain(c)), Action::Finish),
            (Stage::Confirm { signature }, Event::Status(rep)) => (
                Stage::Settled { signature, status: classify(rep) },
                Action::Finish,
            ),
            (s2, _) => (s2, Action::Ignore),
        }
    }
}

pub open spec fn classify(rep: StatusReport) -> TxStatus {
    match rep {
        StatusReport::Pending => TxStatus::Unknown,
        StatusReport::Confirmed => TxStatus::Success,
        StatusReport::Errored(reason) => TxStatus::Failed(reason),
    }
}

/// Classifies the one status poll of a submitted transaction.
pub fn classify_status(rep: StatusReport) -> (r: TxStatus)
    ensures
        r == classify(rep),
{
    match rep {
        StatusReport::Pending => TxStatus::Unknown,
        StatusReport::Confirmed => TxStatus::Success,
        StatusReport::Errored(reason) => TxStatus::Failed(reason),
    }
}

/// The first stage of a transfer and the action it starts with.
pub fn begin() -> (r: (Stage, Action))
    ensures
        r == (Stage::BalanceCheck, Action::QueryBalance),
{
    (Stage::BalanceCheck, Action::QueryBalance)
}

/// Opens a transfer from the sender's secret: a secret that does not resolve ends
/// the attempt with Decode; otherwise the balance check comes first.
pub fn start(secret: &str) -> (r: Result<(Identity, Stage, Action), TransferError>)
    ensures
        match r {
            Ok((id, s, a)) => resolved_key(secret.spec_bytes()) == Some(id.key@)
                && s == Stage::BalanceCheck && a == Action::QueryBalance,
            Err(e) => resolved_key(secret.spec_bytes()) is None && e == TransferError::Decode,
        },
{
    match resolve(secret) {
        Ok(id) => {
            let (s, a) = begin();
            Ok((id, s, a))
        },
        Err(_) => Err(TransferError::Decode),
    }
}

/// Advances a transfer of `amount` by one event.
pub fn step(s: Stage, amount: u64, e: Event) -> (r: (Stage, Action))
    ensures
        r == transition(s, amount, e),
{
    match s {
        Stage::Settled { .. } | Stage::Aborted(_) => (s, Action::Ignore),
        _ => match e {
            Event::TransportFailed(c) => (Stage::Aborted(TransferError::Transport(c)), Action::Finish),
            Event::Balance(b) => match s {
                Stage::BalanceCheck => if b < amount {
                    (
                        Stage::Aborted(TransferError::InsufficientFunds { required: amount, available: b }),
                        Action::Finish,
                    )
                } else {
                    (Stage::BuildAndSign, Action::FetchBlockRef)
                },
                _ => (s, Action::Ignore),
            },
            Event::BlockRef(r) => match s {
                Stage::BuildAndSign => (Stage::Submit, Action::SignAndSubmit { block_ref: r }),
                _ => (s, Action::Ignore),
            },
            Event::Submitted(sig) => match s {
                Stage::Submit => {
                    let sig2 = sig.clone();
                    (Stage::Confirm { signature: sig }, Action::PollStatus { signature: sig2 })
                },
                _ => (s, Action::Ignore),
            },
            Event::Rejected(c) => match s {
                Stage::Submit => (Stage::Aborted(TransferError::OnChain(c)), Action::Finish),
                _ => (s, Action::Ignore),
            },
            Event::Status(rep) => match s {
                Stage::Confirm { signature } => (
                    Stage::Settled { signature, status: classify_status(rep) },
                    Action::Finish,
                ),
                _ => (s, Action::Ignore),
            },
        },
    }
}

/// The stage reached, and the actions asked for, after feeding events in order.
pub open spec fn run(s: Stage, amount: u64, evs: Seq<Event>) -> (Stage, Seq<Action>)
    decreases evs.len(),
{
    if evs.len() == 0 {
        (s, Seq::empty())
    } else {
        let (s1, a) = transition(s, amount, evs[0]);
        let (s2, rest) = run(s1, amount, evs.drop_first());
        (s2, seq![a] + rest)
    }
}

proof fn lemma_terminal_stays(s: Stage, amount: u64, evs: Seq<Event>)
    requires
        is_terminal(s),
    ensures
        run(s, amount, evs).0 == s,
        forall|i: int| 0 <= i < run(s, amount, evs).1.len() ==> run(s, amount, evs).1[i] is Ignore,
    decreases evs.len(),
{
    if evs.len() > 0 {
        lemma_terminal_stays(s, amount, evs.drop_first());
    }
}

/// When the balance observed at the check is below the amount, the transfer ends
/// there with InsufficientFunds, whatever follows, and never asks to submit.
pub proof fn lemma_short_balance_never_submits(amount: u64, balance: u64, later: Seq<Event>)
    requires
        balance < amount,
    ensures
        run(Stage::BalanceCheck, amount, seq![Event::Balance(balance)] + later).0
            == Stage::Aborted(TransferError::InsufficientFunds { required: amount, available: balance }),
        forall|i: int|
            0 <= i < run(Stage::BalanceCheck, amount, seq![Event::Balance(balance)] + later).1.len()
                ==> !(run(Stage::BalanceCheck, amount, seq![Event::Balance(balance)] + later).1[i] is SignAndSubmit),
{
    let evs = seq![Event::Balance(balance)] + later;
    let stop = Stage::Aborted(TransferError::InsufficientFunds { required: amount, available: balance });
    assert(evs[0] == Event::Balance(balance));
    assert(evs.drop_first() =~= later);
    lemma_terminal_stays(stop, amount, later);
    let acts = run(Stage::BalanceCheck, amount, evs).1;
    assert(acts == seq![Action::Finish] + run(stop, amount, later).1);
    assert forall|i: int| 0 <= i < acts.len() implies !(acts[i] is SignAndSubmit) by {
        if i > 0 {
            assert(acts[i] == run(stop, amount, later).1[i - 1]);
        }
    }
}

} // verus!
