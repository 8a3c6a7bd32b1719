//! What to do after each attempt on a parallel accelerator: deliver its
//! buffer, retry once after a device fault, fall back to the host backends,
//! or give up.
use vstd::prelude::*;

verus! {

/// The outcome of one attempt to configure and dispatch on an accelerator.
#[derive(Clone, Copy, PartialEq, Eq, Debug, Structural)]
pub enum AcceleratorEvent {
    /// The buffer came back.
    Completed,
    /// No accelerator is present.
    Unavailable,
    /// Resources could not be allocated or the program not built.
    InitFailed,
    /// The device failed during the dispatch.
    DeviceFault,
}

/// The next action of the caller.
#[derive(Clone, Copy, PartialEq, Eq, Debug, Structural)]
pub enum NextStep {
    /// Hand the buffer on.
    Deliver,
    /// Dispatch on the accelerator once more.
    Retry,
    /// Evaluate on the host instead.
    RunFallback,
    /// Report the failure to the caller.
    Abort,
}

pub open spec fn next_step_spec(retried: bool, event: AcceleratorEvent) -> NextStep {
    match event {
        AcceleratorEvent::Completed => NextStep::Deliver,
        AcceleratorEvent::Unavailable => NextStep::RunFallback,
        AcceleratorEvent::InitFailed => NextStep::Abort,
        AcceleratorEvent::DeviceFault => if retried {
            NextStep::RunFallback
        } else {
            NextStep::Retry
        },
    }
}

/// The action after `event`; `retried` tells whether this frame has already
/// been retried once.
pub fn next_step(retried: bool, event: AcceleratorEvent) -> (r: NextStep)
    ensures
        r == next_step_spec(retried, event),
{
    match event {
        AcceleratorEvent::Completed => NextStep::Deliver,
        AcceleratorEvent::Unavailable => NextStep::RunFallback,
        AcceleratorEvent::InitFailed => NextStep::Abort,
        AcceleratorEvent::DeviceFault => {
            if retried {
                NextStep::RunFallback
            } else {
                NextStep::Retry
            }
        },
    }
}

/// A frame is never retried more than once, and is never dropped: every
/// event leads to the buffer, a retry, the fallback, or a reported failure,
/// and a second device fault always leads to the fallback.
pub proof fn lemma_single_retry(event: AcceleratorEvent)
    ensures
        next_step_spec(true, event) != NextStep::Retry,
        event == AcceleratorEvent::DeviceFault ==> next_step_spec(true, event) == NextStep::RunFallback,
{
}

} // verus!
