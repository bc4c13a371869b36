//! The errors of the transport: the handle to the device and its blocking
//! read are the caller's part, their failures are values here.

use vstd::prelude::*;
use vstd::string::*;

verus! {

/// Why the transport could not do what was asked of it.
#[derive(Debug, Clone, PartialEq, Eq)]
pub enum TransportError {
    /// No device could be opened under the path; `cause` says why.
    OpenFailed { cause: String },
    /// A read on the open device failed; `cause` says why.
    ReadFailed { cause: String },
}

/// A transport error, with its text as characters.
pub enum TransportErrorView {
    OpenFailed { cause: Seq<char> },
    ReadFailed { cause: Seq<char> },
}

impl View for TransportError {
    type V = TransportErrorView;

    open spec fn view(&self) -> TransportErrorView {
        match self {
            TransportError::OpenFailed { cause } => TransportErrorView::OpenFailed {
                cause: cause@,
            },
            TransportError::ReadFailed { cause } => TransportErrorView::ReadFailed {
                cause: cause@,
            },
        }
    }
}

/// What a transport error says of itself.
pub open spec fn transport_error_text(error: TransportErrorView) -> Seq<char> {
    match error {
        TransportErrorView::OpenFailed { cause } => cause,
        TransportErrorView::ReadFailed { cause } => cause,
    }
}

impl TransportError {
    /// Writes what the error says of itself: the cause that it carries.
    pub fn message(&self) -> (text: String)
        ensures
            text@ == transport_error_text(self@),
    {
        match self {
            TransportError::OpenFailed { cause } => cause.clone(),
            TransportError::ReadFailed { cause } => cause.clone(),
        }
    }
}

} // verus!
