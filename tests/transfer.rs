use block_relay::transfer::{
    begin, classify_status, step, Action, Event, Stage, StatusReport, TransferError, TxStatus,
};

const UNIT: u64 = 1_000_000_000;

fn feed(amount: u64, events: Vec<Event>) -> (Stage, Vec<Action>) {
    let (mut stage, first) = begin();
    let mut actions = vec![first];
    for e in events {
        let (next, a) = step(stage, amount, e);
        stage = next;
        actions.push(a);
    }
    (stage, actions)
}

#[test]
fn short_balance_stops_before_submit() {
    let (stage, actions) = feed(
        UNIT,
        vec![
            Event::Balance(UNIT / 2),
            Event::BlockRef(vec![7; 32]),
            Event::Submitted("sig".to_string()),
        ],
    );
    assert!(matches!(
        stage,
        Stage::Aborted(TransferError::InsufficientFunds { required, available })
            if required == UNIT && available == UNIT / 2
    ));
    assert!(actions.iter().all(|a| !matches!(a, Action::SignAndSubmit { .. })));
    assert!(matches!(actions[1], Action::Finish));
}

#[test]
fn balance_equal_to_amount_proceeds() {
    let (stage, actions) = feed(UNIT, vec![Event::Balance(UNIT)]);
    assert!(matches!(stage, Stage::BuildAndSign));
    assert!(matches!(actions[1], Action::FetchBlockRef));
}

#[test]
fn full_run_settles_success() {
    let (stage, actions) = feed(
        UNIT,
        vec![
            Event::Balance(5 * UNIT),
            Event::BlockRef(vec![1, 2, 3]),
            Event::Submitted("abc".to_string()),
            Event::Status(StatusReport::Confirmed),
        ],
    );
    assert!(matches!(actions[0], Action::QueryBalance));
    assert!(matches!(&actions[2], Action::SignAndSubmit { block_ref } if block_ref == &vec![1, 2, 3]));
    assert!(matches!(&actions[3], Action::PollStatus { signature } if signature == "abc"));
    assert!(matches!(actions[4], Action::Finish));
    assert!(matches!(
        stage,
        Stage::Settled { signature, status: TxStatus::Success } if signature == "abc"
    ));
}

#[test]
fn rejection_is_on_chain_error() {
    let (stage, _) = feed(
        UNIT,
        vec![Event::Balance(2 * UNIT), Event::BlockRef(vec![0]), Event::Rejected("reverted".to_string())],
    );
    assert!(matches!(stage, Stage::Aborted(TransferError::OnChain(c)) if c == "reverted"));
}

#[test]
fn transport_failure_is_distinct() {
    let (stage, _) = feed(
        UNIT,
        vec![Event::Balance(2 * UNIT), Event::BlockRef(vec![0]), Event::TransportFailed("timeout".to_string())],
    );
    assert!(matches!(stage, Stage::Aborted(TransferError::Transport(c)) if c == "timeout"));
}

#[test]
fn unobserved_status_is_unknown() {
    let (stage, _) = feed(
        UNIT,
        vec![
            Event::Balance(2 * UNIT),
            Event::BlockRef(vec![0]),
            Event::Submitted("s".to_string()),
            Event::Status(StatusReport::Pending),
        ],
    );
    assert!(matches!(stage, Stage::Settled { status: TxStatus::Unknown, .. }));
}

#[test]
fn status_error_is_failed() {
    assert!(matches!(
        classify_status(StatusReport::Errored("bad".to_string())),
        TxStatus::Failed(r) if r == "bad"
    ));
    assert!(matches!(classify_status(StatusReport::Confirmed), TxStatus::Success));
    assert!(matches!(classify_status(StatusReport::Pending), TxStatus::Unknown));
}

#[test]
fn finished_transfer_ignores_events() {
    let (stage, actions) = feed(
        UNIT,
        vec![Event::Balance(0), Event::Balance(9 * UNIT), Event::BlockRef(vec![1])],
    );
    assert!(matches!(stage, Stage::Aborted(TransferError::InsufficientFunds { .. })));
    assert!(matches!(actions[2], Action::Ignore));
    assert!(matches!(actions[3], Action::Ignore));
}

#[test]
fn out_of_order_event_is_ignored() {
    let (stage, actions) = feed(UNIT, vec![Event::Submitted("x".to_string())]);
    assert!(matches!(stage, Stage::BalanceCheck));
    assert!(matches!(actions[1], Action::Ignore));
}

#[test]
fn start_with_valid_secret_checks_balance_first() {
    let key = solana_sdk::signature::Keypair::new().to_bytes().to_vec();
    let (id, stage, action) = block_relay::transfer::start(&hex::encode(&key)).unwrap();
    assert_eq!(id.key, key);
    assert!(matches!(stage, Stage::BalanceCheck));
    assert!(matches!(action, Action::QueryBalance));
}

#[test]
fn start_with_bad_secret_is_decode_error() {
    assert!(matches!(block_relay::transfer::start("[1,2"), Err(TransferError::Decode)));
}
