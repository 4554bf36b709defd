use vstd::prelude::*;

verus! {

/// The readiness phase whose retry budget ran out.
#[derive(Debug, Clone, Copy, PartialEq, Eq, Structural)]
pub enum ProbePhase {
    /// Waiting for the server to accept a raw network connection.
    Reachability,
    /// Waiting for the server to answer a minimal completion request.
    Functional,
}

/// Every failure the completion pipeline reports to its callers.
#[derive(Debug, PartialEq, Eq)]
pub enum LlmError {
    /// The inference server subprocess could not be started.
    Spawn(String),
    /// A readiness phase exhausted its retry budget.
    ReadinessTimeout(ProbePhase),
    /// The network exchange with the server failed mid-request.
    Transport(String),
    /// The server answered with an explicit error message.
    Model(String),
    /// The queue was used before initialization completed.
    QueueUninitialized,
    /// The internal plumbing was severed, e.g. the worker ended unexpectedly.
    ChannelClosed,
}

} // verus!
