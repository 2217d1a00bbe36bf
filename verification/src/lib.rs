//! A model of an asynchronous cross-runtime call bridge: native code invokes
//! callables owned by a host scripting runtime, obtains a pending result token
//! per invocation, suspends until the host's event loop settles that token,
//! and resumes with the resolved value or the propagated error.
//!
//! The host runtime is modelled deterministically: each callable carries the
//! behaviour the host would run and the time its event loop takes to settle
//! the call, so every contract pins the exact outcome and the exact host time
//! a call or a batch of calls consumes.
pub mod bridge;
pub mod elastic;
pub mod endpoint;
pub mod error;
pub mod handle;
pub mod host;
pub mod model;
pub mod telemetry;
pub mod value;
