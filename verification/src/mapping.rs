//! The wait for the mapping of the staging buffer, and how it can end.

use vstd::prelude::*;

verus! {

/// How the request to map the staging buffer ended.
#[derive(Debug, PartialEq, Eq)]
pub enum MapOutcome {
    /// The buffer was mapped; these are its bytes.
    Mapped(Vec<u8>),
    /// The device reported that the mapping failed.
    Failed,
    /// The device went away without reporting.
    Lost,
    /// The device did not report before the deadline.
    TimedOut,
}

/// What to do next while the mapping is awaited.
#[derive(Clone, Copy, Debug, PartialEq, Eq)]
pub enum WaitStep {
    /// The device has reported: take the report.
    TakeReport,
    /// Nothing was reported yet: drive the device and look again.
    Poll,
    /// Nothing was reported within the deadline: stop waiting.
    GiveUp,
}

/// Why no frame came back.
#[derive(Clone, Copy, Debug, PartialEq, Eq)]
pub enum ReadbackError {
    /// The mapping failed.
    MapFailed,
    /// The device was lost.
    DeviceLost,
    /// The wait for the mapping ran out.
    Timeout,
    /// The mapped bytes are not those of the staging buffer.
    SizeMismatch,
}

/// The next step of the wait, after `waited` units of time of the `deadline`
/// have passed: a report is taken whenever it is there; without one the
/// device is driven on, but not beyond the deadline.
pub open spec fn next_wait_step(reported: bool, waited: u64, deadline: u64) -> WaitStep {
    if reported {
        WaitStep::TakeReport
    } else if waited >= deadline {
        WaitStep::GiveUp
    } else {
        WaitStep::Poll
    }
}

/// Decides the next step of the wait for the mapping.
pub fn wait_step(reported: bool, waited: u64, deadline: u64) -> (step: WaitStep)
    ensures
        step == next_wait_step(reported, waited, deadline),
{
    if reported {
        WaitStep::TakeReport
    } else if waited >= deadline {
        WaitStep::GiveUp
    } else {
        WaitStep::Poll
    }
}

/// The wait for the mapping is bounded: once the deadline has passed, the
/// device is not driven again.
pub proof fn lemma_wait_is_bounded(reported: bool, waited: u64, deadline: u64)
    ensures
        waited >= deadline ==> next_wait_step(reported, waited, deadline) != WaitStep::Poll,
        next_wait_step(reported, waited, deadline) == WaitStep::GiveUp ==> !reported,
        reported <==> next_wait_step(reported, waited, deadline) == WaitStep::TakeReport,
{
}

} // verus!
