//! Latency-critical packet-processing node for decentralized-exchange swap
//! intents: a bounds-checked wire codec over fixed-size records, a
//! constant-product arbitrage engine, a lock-free response staging ring,
//! cache-aware instrumentation, and the decision logic of a kernel-bypass
//! transport layer.

pub mod payload;
pub mod processor;
pub mod ring;
pub mod runtime;
pub mod validator;
pub mod wire;
pub mod xdp;
