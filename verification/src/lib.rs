//! Refresh scheduling and coordination engine for a remote
//! "proof of achievement" record.
//!
//! The engine decides when to contact the remote service, tracks a primary
//! identifier plus optional linked identifiers, serializes concurrent
//! refresh attempts, interprets server responses into retry plans, and ties
//! scheduling to an observed location signal.  All remote I/O, persistence
//! and user-interface work is left to thin collaborators around this crate;
//! the state machine itself is verified.

pub mod addon;
pub mod config;
pub mod context;
pub mod cooldown;
pub mod coordinator;
pub mod ids;
pub mod linked;
pub mod registry;
pub mod request;
pub mod response;
pub mod schedule;
pub mod text;
pub mod tick;
pub mod time;
pub mod version;

pub use response::FailureReason;
pub use response::KpResponse;
