//! Local inference supervisor and completion queue.
//!
//! The library owns the logic of a system that runs a language-model server as
//! a subprocess and serializes concurrent text-generation requests against it:
//! the server configuration and launch arguments, the two-phase readiness
//! protocol, the wire format of one completion exchange, the bounded FIFO job
//! queue with its single-flight worker discipline, and the process-wide queue
//! handle.  Process spawning, networking, and task scheduling live outside the
//! library; they drive the state machines defined here.
pub mod config;
pub mod errors;
pub mod handle;
pub mod project;
pub mod prompts;
pub mod queue;
pub mod startup;
pub mod text;
pub mod wire;
