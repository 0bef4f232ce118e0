use vstd::prelude::*;

verus! {

/// A fatal, human-readable diagnostic attached to a failed lifecycle
/// operation (start, stop, seek, end-of-stream).  The wrapper posts it to the
/// host's message path and fails the operation.
#[derive(Debug)]
pub struct ErrorMessage {
    pub message: String,
}

impl ErrorMessage {
    pub fn new(message: String) -> (m: ErrorMessage)
        ensures
            m.message == message,
    {
        ErrorMessage { message }
    }
}

/// The per-buffer flow status exchanged across the boundary: the value the
/// buffer-handling entry point returns to the host, and the value the host's
/// push callback reports back for each payload.
#[derive(Clone, Copy, Debug, PartialEq, Eq, Structural)]
pub enum FlowReturn {
    Okay,
    NotLinked,
    Flushing,
    Eos,
    NotNegotiated,
    Error,
}

/// A failure reported by the parser's buffer-handling step.
///
/// `NotNegotiated` and `Error` carry a postable diagnostic; `NotLinked` and
/// `Flushing` are transient flow conditions that carry none and are simply
/// forwarded.
#[derive(Debug)]
pub enum FlowError {
    NotLinked,
    Flushing,
    NotNegotiated(ErrorMessage),
    Error(ErrorMessage),
}

impl FlowError {
    /// The flow status this failure maps to at the boundary.
    pub open spec fn native(&self) -> FlowReturn {
        match self {
            FlowError::NotLinked => FlowReturn::NotLinked,
            FlowError::Flushing => FlowReturn::Flushing,
            FlowError::NotNegotiated(_) => FlowReturn::NotNegotiated,
            FlowError::Error(_) => FlowReturn::Error,
        }
    }

    pub fn to_native(&self) -> (r: FlowReturn)
        ensures
            r == self.native(),
    {
        match self {
            FlowError::NotLinked => FlowReturn::NotLinked,
            FlowError::Flushing => FlowReturn::Flushing,
            FlowError::NotNegotiated(_) => FlowReturn::NotNegotiated,
            FlowError::Error(_) => FlowReturn::Error,
        }
    }
}

} // verus!
