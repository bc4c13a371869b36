//! The failures of a capture session as one value, each with its severity.

use vstd::prelude::*;
use vstd::string::*;
use crate::decoder::{decode_error_text, DecodeError};
use crate::dispatch::{launch_error_text, DispatchError, DispatchErrorView};
use crate::transport::{transport_error_text, TransportError, TransportErrorView};

verus! {

/// What a failure means for the session.
#[derive(Debug, Clone, Copy, PartialEq, Eq, Structural)]
pub enum Severity {
    /// The session cannot begin.
    Fatal,
    /// The failure is reported and the session goes on.
    Recoverable,
}

/// A failure met while capturing.
#[allow(inconsistent_fields)]
#[derive(Debug, Clone, PartialEq, Eq)]
pub enum CaptureError {
    Transport { error: TransportError },
    Decode { error: DecodeError },
    Dispatch { error: DispatchError },
}

/// A capture error, with its text as characters.
#[allow(inconsistent_fields)]
pub enum CaptureErrorView {
    Transport { error: TransportErrorView },
    Decode { error: DecodeError },
    Dispatch { error: DispatchErrorView },
}

impl View for CaptureError {
    type V = CaptureErrorView;

    open spec fn view(&self) -> CaptureErrorView {
        match self {
            CaptureError::Transport { error } => CaptureErrorView::Transport { error: error@ },
            CaptureError::Decode { error } => CaptureErrorView::Decode { error: *error },
            CaptureError::Dispatch { error } => CaptureErrorView::Dispatch { error: error@ },
        }
    }
}

/// The severity of each failure: only a device that cannot be opened is
/// fatal. A failed read, a report that does not decode and a command that
/// does not start are recoverable.
pub open spec fn severity_of(error: CaptureErrorView) -> Severity {
    match error {
        CaptureErrorView::Transport { error: TransportErrorView::OpenFailed { .. } } => {
            Severity::Fatal
        },
        _ => Severity::Recoverable,
    }
}

/// What a failure says of itself.
pub open spec fn error_text(error: CaptureErrorView) -> Seq<char> {
    match error {
        CaptureErrorView::Transport { error } => transport_error_text(error),
        CaptureErrorView::Decode { error } => decode_error_text(error),
        CaptureErrorView::Dispatch { error } => launch_error_text(error),
    }
}

impl CaptureError {
    /// Whether the session can go on after the failure.
    pub fn severity(&self) -> (severity: Severity)
        ensures
            severity == severity_of(self@),
    {
        match self {
            CaptureError::Transport { error: TransportError::OpenFailed { .. } } => Severity::Fatal,
            _ => Severity::Recoverable,
        }
    }

    /// Writes what the failure says of itself.
    pub fn message(&self) -> (text: String)
        ensures
            text@ == error_text(self@),
    {
        match self {
            CaptureError::Transport { error } => error.message(),
            CaptureError::Decode { error } => error.message(),
            CaptureError::Dispatch { error } => error.message(),
        }
    }
}

} // verus!
