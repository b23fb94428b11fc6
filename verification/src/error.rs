//! The failures of the capture-and-crop pipeline and what each one ends.

use vstd::prelude::*;

verus! {

/// What can go wrong between the hotkey and the clipboard.
#[derive(Clone, Copy, Debug, PartialEq, Eq, Structural)]
pub enum PipelineError {
    /// The pointer position or the key state could not be read.
    InputUnavailable,
    /// No display covers the pointer position.
    NoMonitorAtPoint,
    /// The display backend produced no frame.
    CaptureUnavailable,
    /// The raw frame's rows are shorter than the frame is wide.
    FormatError,
    /// The rendering surface was lost.
    SurfaceLost,
    /// The rendering surface no longer matches the window.
    SurfaceOutdated,
    /// The rendering backend ran out of memory.
    OutOfMemory,
    /// The hand-off file or the clipboard could not be written.
    IoFailure,
}

/// How far a failure reaches.
#[derive(Clone, Copy, Debug, PartialEq, Eq, Structural)]
pub enum Disposition {
    /// Drop the current trigger without a word; the listener stays armed.
    SkipTrigger,
    /// Drop the current trigger and tell the user; the listener stays armed.
    AbortTrigger,
    /// Configure the surface again and go on with the next frame.
    Reconfigure,
    /// End the current preview session.
    EndSession,
}

impl PipelineError {
    /// The reach of this failure. Capture-side failures end one trigger and
    /// never the listener; a lost or outdated surface is recovered; running
    /// out of memory and failed writes end the preview session.
    pub open spec fn disposition_spec(&self) -> Disposition {
        match *self {
            PipelineError::NoMonitorAtPoint => Disposition::SkipTrigger,
            PipelineError::InputUnavailable => Disposition::AbortTrigger,
            PipelineError::CaptureUnavailable => Disposition::AbortTrigger,
            PipelineError::FormatError => Disposition::AbortTrigger,
            PipelineError::SurfaceLost => Disposition::Reconfigure,
            PipelineError::SurfaceOutdated => Disposition::Reconfigure,
            PipelineError::OutOfMemory => Disposition::EndSession,
            PipelineError::IoFailure => Disposition::EndSession,
        }
    }

    /// The reach of this failure.
    pub fn disposition(&self) -> (reach: Disposition)
        ensures
            reach == self.disposition_spec(),
    {
        match self {
            PipelineError::NoMonitorAtPoint => Disposition::SkipTrigger,
            PipelineError::InputUnavailable
            | PipelineError::CaptureUnavailable
            | PipelineError::FormatError => Disposition::AbortTrigger,
            PipelineError::SurfaceLost | PipelineError::SurfaceOutdated => Disposition::Reconfigure,
            PipelineError::OutOfMemory | PipelineError::IoFailure => Disposition::EndSession,
        }
    }
}

} // verus!
