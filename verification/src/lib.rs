//! A verified core for a redirect operator: a control loop that keeps
//! user-declared redirect intents in sync with generated ingress routing
//! objects, gates reconciliation behind a leader lease, and serves permanent
//! redirects from an in-memory snapshot of the declared intents.
//!
//! All cluster and network I/O lives in the embedding binary; this crate
//! holds the decision logic, the derivation of the routing objects, and the
//! serving and instrumentation rules, each with a proved contract.

pub mod controller;
pub mod ingress;
pub mod lease;
pub mod metrics;
pub mod serve;
pub mod types;
