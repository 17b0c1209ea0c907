//! A proof-of-work compute service: it accepts a mining job (a 32-byte
//! challenge, a nonce range, a thread count, a time budget and a difficulty
//! floor), splits the nonce range across workers, searches each slice with
//! the drillx hash oracle, and reduces the per-worker bests to one answer.
pub mod codec;
pub mod control;
pub mod oracle;
pub mod partition;
pub mod pool;
pub mod request;
pub mod respond;
pub mod rewards;
pub mod scan;
pub mod service;
pub mod timing;
pub mod worker;
