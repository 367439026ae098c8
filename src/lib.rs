//! Event-triggered transfer engine: key resolution, the per-transfer state
//! machine, fan-out over senders and recipients, and the block-stream session.
pub mod keys;
pub mod transfer;
pub mod fanout;
pub mod stream;
pub mod balances;
