//! The block-stream subscription session: what to subscribe to, how to answer
//! keepalives, and which inbound messages start a transfer or end the session.
use crate::transfer::TransferRequest;
use vstd::prelude::*;

verus! {

/// Id carried by every pong this subscriber sends.
pub const PONG_ID: i32 = 1;

/// Durability level that reads are made at.
#[derive(Clone, Copy, Debug, PartialEq, Eq, Structural)]
pub enum Commitment {
    Processed,
    Confirmed,
    Finalized,
}

/// The one subscription request: block arrivals only, at the processed level.
#[derive(Clone, Copy, Debug, PartialEq, Eq, Structural)]
pub struct Subscription {
    pub blocks: bool,
    pub block_transactions: bool,
    pub block_accounts: bool,
    pub block_entries: bool,
    pub accounts: bool,
    pub slots: bool,
    pub transactions: bool,
    pub commitment: Commitment,
}

pub open spec fn blocks_only() -> Subscription {
    Subscription {
        blocks: true,
        block_transactions: true,
        block_accounts: false,
        block_entries: false,
        accounts: false,
        slots: false,
        transactions: false,
        commitment: Commitment::Processed,
    }
}

/// The subscription request that a session opens with.
pub fn subscription() -> (r: Subscription)
    ensures
        r == blocks_only(),
{
    Subscription {
        blocks: true,
        block_transactions: true,
        block_accounts: false,
        block_entries: false,
        accounts: false,
        slots: false,
        transactions: false,
        commitment: Commitment::Processed,
    }
}

/// A block arrival, as decoded from the stream.
#[derive(Debug)]
pub struct BlockEvent {
    pub slot: u64,
    pub parent_slot: u64,
    pub block_hash: Vec<u8>,
    /// Seconds since the Unix epoch; 0 where the block carries no time.
    pub timestamp: i64,
}

/// Builds a block event; a block without a time gets time 0.
pub fn decode_block(slot: u64, parent_slot: u64, block_hash: Vec<u8>, block_time: Option<i64>) -> (r: BlockEvent)
    ensures
        r.slot == slot,
        r.parent_slot == parent_slot,
        r.block_hash@ == block_hash@,
        r.timestamp == match block_time {
            Some(t) => t,
            None => 0,
        },
{
    let timestamp = match block_time {
        Some(t) => t,
        None => 0,
    };
    BlockEvent { slot, parent_slot, block_hash, timestamp }
}

#[derive(Clone, Copy, Debug, PartialEq, Eq, Structural)]
pub enum SessionState {
    Connecting,
    Connected,
    Closed,
}

/// An inbound message of the stream, or a failed read.
#[derive(Debug)]
pub enum Inbound {
    Block(BlockEvent),
    Ping,
    Pong,
    /// A message with no payload that this subscriber recognizes.
    Unrecognized,
    ReadError(String),
}

/// What the session asks the caller to do.
#[derive(Debug)]
pub enum Outbound {
    Subscribe(Subscription),
    Pong { id: i32 },
    /// Start this transfer for the block at `slot`, without waiting for earlier ones.
    StartTransfer { slot: u64, request: TransferRequest },
    /// Stop reading; the session is over.
    Close,
    Nothing,
}

/// A session and the one transfer that every block triggers.
pub struct Session {
    pub state: SessionState,
    pub sender_secret: String,
    pub recipient: String,
    pub amount: u64,
}

pub open spec fn order_of(s: Session, slot: u64) -> Outbound {
    Outbound::StartTransfer {
        slot,
        request: TransferRequest { sender_secret: s.sender_secret, recipient: s.recipient, amount: s.amount },
    }
}

/// The state after a message, in a session in state `st`.
pub open spec fn next_state(st: SessionState, m: Inbound) -> SessionState {
    match st {
        SessionState::Connected => match m {
            Inbound::Unrecognized | Inbound::ReadError(_) => SessionState::Closed,
            _ => SessionState::Connected,
        },
        _ => st,
    }
}

/// Whether a message, in a session in state `st`, is answered with a pong.
pub open spec fn answers_pong(st: SessionState, m: Inbound) -> bool {
    st == SessionState::Connected && m is Ping
}

impl Session {
    pub fn new(sender_secret: String, recipient: String, amount: u64) -> (r: Session)
        ensures
            r.state == SessionState::Connecting,
            r.sender_secret == sender_secret,
            r.recipient == recipient,
            r.amount == amount,
    {
        Session { state: SessionState::Connecting, sender_secret, recipient, amount }
    }

    /// Opens the subscription once the transport is connected.
    pub fn open(&mut self) -> (r: Outbound)
        requires
            old(self).state == SessionState::Connecting,
        ensures
            final(self).state == SessionState::Connected,
            final(self).sender_secret == old(self).sender_secret,
            final(self).recipient == old(self).recipient,
            final(self).amount == old(self).amount,
            r == Outbound::Subscribe(blocks_only()),
    {
        self.state = SessionState::Connected;
        Outbound::Subscribe(subscription())
    }

    /// Handles one inbound message: a block starts the configured transfer, a ping
    /// is answered with one pong, a pong needs nothing, and a read error or an
    /// unrecognized message closes the session. A closed session stays closed.
    pub fn on_message(&mut self, m: Inbound) -> (r: Outbound)
        ensures
            final(self).state == next_state(old(self).state, m),
            final(self).sender_secret == old(self).sender_secret,
            final(self).recipient == old(self).recipient,
            final(self).amount == old(self).amount,
            r == (if old(self).state != SessionState::Connected {
                Outbound::Nothing
            } else {
                match m {
                    Inbound::Block(b) => order_of(*old(self), b.slot),
                    Inbound::Ping => Outbound::Pong { id: PONG_ID },
                    Inbound::Pong => Outbound::Nothing,
                    Inbound::Unrecognized | Inbound::ReadError(_) => Outbound::Close,
                }
            }),
    {
        if self.state != SessionState::Connected {
            return Outbound::Nothing;
        }
        match m {
            Inbound::Block(b) => Outbound::StartTransfer {
                slot: b.slot,
                request: TransferRequest {
                    sender_secret: self.sender_secret.clone(),
                    recipient: self.recipient.clone(),
                    amount: self.amount,
                },
            },
            Inbound::Ping => Outbound::Pong { id: PONG_ID },
            Inbound::Pong => Outbound::Nothing,
            Inbound::Unrecognized | Inbound::ReadError(_) => {
                self.state = SessionState::Closed;
                Outbound::Close
            },
        }
    }
}

/// The state after a sequence of messages.
pub open spec fn state_after(st: SessionState, ms: Seq<Inbound>) -> SessionState
    decreases ms.len(),
{
    if ms.len() == 0 {
        st
    } else {
        next_state(state_after(st, ms.drop_last()), ms.last())
    }
}

/// How many pongs a sequence of messages is answered with.
pub open spec fn pongs_sent(st: SessionState, ms: Seq<Inbound>) -> nat
    decreases ms.len(),
{
    if ms.len() == 0 {
        0
    } else {
        pongs_sent(st, ms.drop_last()) + if answers_pong(state_after(st, ms.drop_last()), ms.last()) {
            1nat
        } else {
            0nat
        }
    }
}

pub open spec fn pings_in(ms: Seq<Inbound>) -> nat
    decreases ms.len(),
{
    if ms.len() == 0 {
        0
    } else {
        pings_in(ms.drop_last()) + if ms.last() is Ping { 1nat } else { 0nat }
    }
}

pub open spec fn ends_session(m: Inbound) -> bool {
    m is Unrecognized || m is ReadError
}

/// In a connected session that reads no closing message, every ping is answered
/// with exactly one pong.
pub proof fn lemma_one_pong_per_ping(ms: Seq<Inbound>)
    requires
        forall|i: int| 0 <= i < ms.len() ==> !ends_session(#[trigger] ms[i]),
    ensures
        state_after(SessionState::Connected, ms) == SessionState::Connected,
        pongs_sent(SessionState::Connected, ms) == pings_in(ms),
    decreases ms.len(),
{
    if ms.len() > 0 {
        let t = ms.drop_last();
        assert forall|i: int| 0 <= i < t.len() implies !ends_session(#[trigger] t[i]) by {
            assert(t[i] == ms[i]);
        }
        lemma_one_pong_per_ping(t);
        assert(!ends_session(ms[ms.len() - 1]));
    }
}

/// A closed session stays closed and answers nothing, whatever it reads.
pub proof fn lemma_closed_is_terminal(ms: Seq<Inbound>)
    ensures
        state_after(SessionState::Closed, ms) == SessionState::Closed,
        pongs_sent(SessionState::Closed, ms) == 0,
    decreases ms.len(),
{
    if ms.len() > 0 {
        lemma_closed_is_terminal(ms.drop_last());
    }
}

/// An unrecognized message closes a connected session, and nothing read after it
/// reopens the session or is answered.
pub proof fn lemma_unrecognized_closes(before: Seq<Inbound>, after: Seq<Inbound>)
    requires
        state_after(SessionState::Connected, before) == SessionState::Connected,
    ensures
        state_after(SessionState::Connected, before.push(Inbound::Unrecognized) + after) == SessionState::Closed,
    decreases after.len(),
{
    let ms = before.push(Inbound::Unrecognized);
    if after.len() == 0 {
        assert(ms + after =~= ms);
        assert(ms.drop_last() =~= before);
    } else {
        lemma_unrecognized_closes(before, after.drop_last());
        assert((ms + after).drop_last() =~= ms + after.drop_last());
    }
}

} // verus!
