//! The engine's two error kinds.

use vstd::prelude::*;

verus! {

/// Everything that can go wrong in the presentation lifecycle.
#[derive(Clone, Copy, PartialEq, Eq, Structural, Debug)]
pub enum EngineError {
    /// No usable device or surface at startup: unrecoverable, the process
    /// must terminate with a diagnostic.
    FatalInit,
    /// Frame acquisition failed because the chain no longer matches the
    /// window: recoverable by re-creating the chain and retrying once.
    PresentationStale,
}

impl EngineError {
    /// A diagnostic description of the error.
    pub fn describe(&self) -> (s: &'static str)
    {
        match self {
            EngineError::FatalInit => "no compatible graphics device or surface",
            EngineError::PresentationStale => "presentation chain is stale",
        }
    }
}

} // verus!
