//! The order of the installation stages and the progress they report.

use vstd::prelude::*;

use crate::error::InstallError;

verus! {

/// The number of installation stages.
pub const STAGE_COUNT: u64 = 6;

/// A progress report of an installation.
#[derive(Clone, Debug, PartialEq, Eq)]
pub enum ProgressEvent {
    /// Stage `index` of `total` begins.
    NewStep(u64, u64),
    /// Part `index` of `total` of the current stage begins.
    NewSubStep(String, u64, u64),
    /// Item `index` of `total` of the current part begins.
    NewSubSubStep(String, u64, u64),
    /// The installation stopped on this failure.
    Error(InstallError),
    /// Every stage succeeded.
    Done,
}

/// Where an installation stands.
#[derive(Clone, Copy, Debug, PartialEq, Eq, Structural)]
pub enum PipelineState {
    /// Stage `n` (from 1 to `STAGE_COUNT`) is running.
    Running(u64),
    /// A stage failed; nothing more runs.
    Failed,
    /// Every stage succeeded; nothing more runs.
    Finished,
}

/// Starts an installation: the first stage runs, and its start is reported.
pub fn start() -> (r: (PipelineState, ProgressEvent))
    ensures
        r.0 == PipelineState::Running(1),
        r.1 == ProgressEvent::NewStep(1, STAGE_COUNT),
{
    (PipelineState::Running(1), ProgressEvent::NewStep(1, STAGE_COUNT))
}

/// The step after the running stage ends with `outcome`. A failure stops the
/// installation with a single Error report; a success starts the next stage,
/// or, after the last, finishes with a Done report. Failed and Finished are
/// terminal: they stay as they are and report nothing more.
pub fn advance(state: PipelineState, outcome: Result<(), InstallError>) -> (r: (PipelineState, Option<ProgressEvent>))
    ensures
        match state {
            PipelineState::Running(n) => match outcome {
                Err(e) => r.0 == PipelineState::Failed && r.1 == Some(ProgressEvent::Error(e)),
                Ok(()) => if n < STAGE_COUNT {
                    r.0 == PipelineState::Running((n + 1) as u64) && r.1 == Some(
                        ProgressEvent::NewStep((n + 1) as u64, STAGE_COUNT),
                    )
                } else {
                    r.0 == PipelineState::Finished && r.1 == Some(ProgressEvent::Done)
                },
            },
            _ => r.0 == state && r.1 is None,
        },
{
    match state {
        PipelineState::Running(n) => match outcome {
            Err(e) => (PipelineState::Failed, Some(ProgressEvent::Error(e))),
            Ok(()) => if n < STAGE_COUNT {
                (PipelineState::Running(n + 1), Some(ProgressEvent::NewStep(n + 1, STAGE_COUNT)))
            } else {
                (PipelineState::Finished, Some(ProgressEvent::Done))
            },
        },
        _ => (state, None),
    }
}

} // verus!
