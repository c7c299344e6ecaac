//! Configuration of the controller wrapper.

use vstd::prelude::*;

verus! {

/// Unconstrained behavior for sink role
#[derive(Clone, Copy, Debug, PartialEq, Eq, Structural)]
pub enum UnconstrainedSink {
    /// Automatically signal unconstrained power based on unconstrained bit in PDO
    Auto,
    /// Automatically signal unconstrained power for any sink that meets a power threshold in mW
    PowerThresholdmW(u32),
    /// Never signal unconstrained power
    Never,
}

/// Longest time that a source takes to deliver the power of a new contract.
#[derive(Clone, Copy, Debug, PartialEq, Eq, Structural)]
pub struct SinkReadyTimeouts {
    /// Time in ms in the standard power range
    pub spr_ms: u16,
    /// Time in ms in the extended power range
    pub epr_ms: u16,
}

/// Configuration for Type-C controller wrapper
#[derive(Clone, Copy, Debug, PartialEq, Eq, Structural)]
pub struct Config {
    /// Unconstrained behavior for sink role
    pub unconstrained_sink: UnconstrainedSink,
    /// Deadlines for a source to get ready
    pub sink_ready: SinkReadyTimeouts,
}

impl Config {
    /// The configuration that signals unconstrained power as the partner
    /// advertises it.
    pub open spec fn spec_with_timeouts(sink_ready: SinkReadyTimeouts) -> Self {
        Config { unconstrained_sink: UnconstrainedSink::Auto, sink_ready }
    }

    /// Create the configuration that signals unconstrained power as the
    /// partner advertises it
    pub fn with_timeouts(sink_ready: SinkReadyTimeouts) -> (config: Self)
        ensures
            config == Self::spec_with_timeouts(sink_ready),
    {
        Config { unconstrained_sink: UnconstrainedSink::Auto, sink_ready }
    }
}

} // verus!
