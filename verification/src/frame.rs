//! Per-frame outcome classification.
//!
//! Each redraw the host tries to acquire the next presentable surface
//! texture and reports how the acquisition went, as a plain event. The
//! library classifies that report into the outcome of the frame, which also
//! tells the host what to do next: present, skip, recover by reconfiguring,
//! or log and drop the frame.

use vstd::prelude::*;

verus! {

/// How one attempt to acquire the next presentable texture went, as the
/// host reports it.
#[derive(Clone, Copy, PartialEq, Eq, Structural, Debug)]
pub enum AcquireStatus {
    /// A texture was acquired and can be rendered to and presented.
    Acquired,
    /// The surface was lost and must be reconfigured.
    Lost,
    /// The surface no longer matches the window and must be reconfigured.
    Outdated,
    /// The acquisition timed out; the frame can safely be skipped.
    Timeout,
    /// The device is out of memory.
    OutOfMemory,
    /// Any other acquisition failure.
    Other,
}

/// What made a frame fail fatally.
#[derive(Clone, Copy, PartialEq, Eq, Structural, Debug)]
pub enum FatalKind {
    /// The device ran out of memory.
    OutOfMemory,
    /// An unclassified acquisition failure.
    Other,
}

/// The result of one render attempt.
#[derive(Clone, Copy, PartialEq, Eq, Structural, Debug)]
pub enum FrameOutcome {
    /// A texture was acquired; the frame is recorded, submitted and
    /// presented.
    Presented,
    /// The surface is not configured yet; the frame is deliberately a
    /// no-op, not an error.
    SkippedUnconfigured,
    /// The surface was lost or outdated; it is reconfigured to the current
    /// window size within the same handling step and the next redraw
    /// retries.
    RecoverableSurfaceError,
    /// The acquisition timed out; the frame is silently skipped.
    TransientAcquireTimeout,
    /// The frame is dropped and the failure logged; the host loop decides
    /// whether to keep running.
    FatalError(FatalKind),
}

/// How each acquisition report is classified.
pub open spec fn spec_classify_acquire(s: AcquireStatus) -> FrameOutcome {
    match s {
        AcquireStatus::Acquired => FrameOutcome::Presented,
        AcquireStatus::Lost => FrameOutcome::RecoverableSurfaceError,
        AcquireStatus::Outdated => FrameOutcome::RecoverableSurfaceError,
        AcquireStatus::Timeout => FrameOutcome::TransientAcquireTimeout,
        AcquireStatus::OutOfMemory => FrameOutcome::FatalError(FatalKind::OutOfMemory),
        AcquireStatus::Other => FrameOutcome::FatalError(FatalKind::Other),
    }
}

/// Classifies one acquisition report into the outcome of the frame.
pub fn classify_acquire(s: AcquireStatus) -> (o: FrameOutcome)
    ensures
        o == spec_classify_acquire(s),
{
    match s {
        AcquireStatus::Acquired => FrameOutcome::Presented,
        AcquireStatus::Lost => FrameOutcome::RecoverableSurfaceError,
        AcquireStatus::Outdated => FrameOutcome::RecoverableSurfaceError,
        AcquireStatus::Timeout => FrameOutcome::TransientAcquireTimeout,
        AcquireStatus::OutOfMemory => FrameOutcome::FatalError(FatalKind::OutOfMemory),
        AcquireStatus::Other => FrameOutcome::FatalError(FatalKind::Other),
    }
}

} // verus!
