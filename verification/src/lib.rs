//! A passive observer for a decentralized worker network.
//!
//! The library holds the logic of the observer: the wire-level message model,
//! the validation rules for untrusted telemetry, the metric store and the
//! rules by which validated telemetry becomes metric updates. Every function
//! carries a contract that is checked by Verus.

pub mod dispatch;
pub mod envelope;
pub mod families;
pub mod identity;
pub mod metrics;
pub mod p2p;
pub mod ranges;
pub mod scheduler;
pub mod transport;
pub mod validator;
