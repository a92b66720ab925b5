//! Decision core of a proof-of-work mining client: the worker state machine,
//! puzzle dispatch, and hashrate sampling and aggregation.

pub mod hashrate;
pub mod protocol;
pub mod worker;
pub mod codec;
pub mod dispatch;
pub mod laws;
