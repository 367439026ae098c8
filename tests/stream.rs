use block_relay::stream::{
    decode_block, subscription, Commitment, Inbound, Outbound, Session, SessionState, PONG_ID,
};

fn connected() -> Session {
    let mut s = Session::new("secret".to_string(), "dest".to_string(), 7);
    let first = s.open();
    assert!(matches!(first, Outbound::Subscribe(sub) if sub == subscription()));
    s
}

fn block(slot: u64) -> Inbound {
    Inbound::Block(decode_block(slot, slot - 1, vec![1, 2, 3], Some(1_700_000_000)))
}

#[test]
fn subscription_is_blocks_only_at_processed() {
    let sub = subscription();
    assert!(sub.blocks);
    assert!(!sub.accounts && !sub.slots && !sub.transactions);
    assert_eq!(sub.commitment, Commitment::Processed);
}

#[test]
fn ping_gets_exactly_one_pong() {
    let mut s = connected();
    assert!(matches!(s.on_message(Inbound::Ping), Outbound::Pong { id } if id == PONG_ID));
    assert!(matches!(s.on_message(Inbound::Pong), Outbound::Nothing));
    assert_eq!(s.state, SessionState::Connected);
}

#[test]
fn unrecognized_message_closes_session() {
    let mut s = connected();
    assert!(matches!(s.on_message(Inbound::Unrecognized), Outbound::Close));
    assert_eq!(s.state, SessionState::Closed);
    assert!(matches!(s.on_message(Inbound::Ping), Outbound::Nothing));
    assert!(matches!(s.on_message(block(5)), Outbound::Nothing));
    assert_eq!(s.state, SessionState::Closed);
}

#[test]
fn read_error_closes_session() {
    let mut s = connected();
    assert!(matches!(s.on_message(Inbound::ReadError("reset".to_string())), Outbound::Close));
    assert_eq!(s.state, SessionState::Closed);
}

#[test]
fn next_block_starts_while_earlier_transfer_pending() {
    let mut s = connected();
    let first = s.on_message(block(99));
    assert!(matches!(first, Outbound::StartTransfer { slot: 99, .. }));
    let second = s.on_message(block(100));
    match second {
        Outbound::StartTransfer { slot, request } => {
            assert_eq!(slot, 100);
            assert_eq!(request.sender_secret, "secret");
            assert_eq!(request.recipient, "dest");
            assert_eq!(request.amount, 7);
        }
        _ => panic!("block 100 did not start a transfer"),
    }
}

#[test]
fn messages_before_open_are_ignored() {
    let mut s = Session::new("k".to_string(), "r".to_string(), 1);
    assert!(matches!(s.on_message(Inbound::Ping), Outbound::Nothing));
    assert_eq!(s.state, SessionState::Connecting);
}

#[test]
fn block_without_time_gets_zero() {
    let b = decode_block(100, 99, vec![4, 5], None);
    assert_eq!(b.slot, 100);
    assert_eq!(b.parent_slot, 99);
    assert_eq!(b.block_hash, vec![4, 5]);
    assert_eq!(b.timestamp, 0);
    assert_eq!(decode_block(1, 0, vec![], Some(-3)).timestamp, -3);
}
