use vstd::prelude::*;

verus! {

/// The engine operation during which a failure was reported: one of the
/// three phases of an encode session.
#[derive(Clone, Copy, Debug, PartialEq, Eq, Structural)]
pub enum EnginePhase {
    /// Session initialization (the engine's start operation).
    Start,
    /// Pulling one stereo frame from the session.
    GetSample,
    /// Releasing the session's engine-side resources.
    End,
}

/// Everything that can go wrong during an encode call.  Every error carries
/// its diagnostic payload; nothing is swallowed or mapped to a default.
#[derive(Clone, Copy, Debug, PartialEq, Eq, Structural)]
pub enum SyroError {
    /// The requested destination slot lies outside `0..=MAX_SLOT`.  Detected
    /// locally, before any engine interaction; carries the offending slot.
    InvalidSlot(u32),
    /// An engine operation returned a non-success status.  Carries the phase
    /// that failed and the engine's raw status code.
    VolcaSampleOp(EnginePhase, u32),
}

} // verus!
