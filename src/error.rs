//! Errors of the rendering pipeline.
use vstd::prelude::*;

verus! {

/// What can go wrong between configuration and a finished frame.
#[derive(Clone, PartialEq, Eq, Debug)]
pub enum RenderError {
    /// No parallel accelerator is present; the sequential path remains.
    BackendUnavailable,
    /// Device resources could not be allocated or the program not built.
    BackendInitError(String),
    /// A device fault during a dispatch.
    ComputeError,
    /// A viewport that breaks its invariant, or a transform that would
    /// produce one.
    InvalidViewport,
}

} // verus!
