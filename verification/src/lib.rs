//! Verified core of an RPC middleware stack.
//!
//! The crate proves the decision logic of two middleware stages: deadline
//! enforcement (parsing a client-declared timeout header, reconciling it with
//! a server ceiling, and racing the inner handler against a timer) and
//! callback instrumentation (driving per-request lifecycle hooks across the
//! response head, body chunks, and end of stream).  The asynchronous plumbing
//! that feeds these state machines lives outside the verified library.

pub mod callback;
pub mod dur;
pub mod grpc_timeout;
pub mod http_model;
pub mod logging;
