//! Error taxonomy of the transfer engine and the source spans used for
//! error attribution.

use vstd::prelude::*;

verus! {

/// A region of the caller's source text, used to attribute a failure to the
/// argument or call site that caused it.
#[derive(Clone, Copy, Debug, PartialEq, Eq, Structural)]
pub struct Span {
    pub start: usize,
    pub end: usize,
}

impl Span {
    pub fn new(start: usize, end: usize) -> (s: Span)
        ensures
            s == (Span { start, end }),
    {
        Span { start, end }
    }
}

/// One structured failure per invocation; every error aborts the whole
/// transfer and nothing is retried at this layer.
#[derive(Clone, Debug, PartialEq, Eq)]
pub enum SaveError {
    /// The destination string does not parse as a well-formed location.
    InvalidLocation { msg: String, span: Span, call_span: Span },
    /// The cancellation signal was observed during the copy loop or the
    /// value-stream iteration.
    Cancelled { span: Span },
    /// The byte source reported a non-transient read failure.
    SourceReadFailed { msg: String, span: Span },
    /// A value (or list element) could not be converted to a string or byte
    /// representation.
    CoercionFailed { msg: String, span: Span },
    /// An externally resolved format transformation failed.
    TransformFailed { msg: String, span: Span },
    /// The storage backend rejected a part write or the final completion.
    BackendWriteFailed { msg: String },
}

impl SaveError {
    /// A short human-readable description, for the surrounding program to
    /// print: a fixed prefix naming the failing stage, followed by the
    /// carried message.
    pub fn describe(&self) -> (r: String)
        ensures
            self matches SaveError::InvalidLocation { msg, .. } ==> r@ == "invalid location: "@
                + msg@,
            self matches SaveError::Cancelled { .. } ==> r@ == "operation was cancelled"@,
            self matches SaveError::SourceReadFailed { msg, .. } ==> r@
                == "failed to read from the byte source: "@ + msg@,
            self matches SaveError::CoercionFailed { msg, .. } ==> r@
                == "cannot convert value to bytes: "@ + msg@,
            self matches SaveError::TransformFailed { msg, .. } ==> r@
                == "format conversion failed: "@ + msg@,
            self matches SaveError::BackendWriteFailed { msg } ==> r@
                == "could not write to the object store: "@ + msg@,
    {
        match self {
            SaveError::InvalidLocation { msg, .. } => {
                String::from_str("invalid location: ").concat(msg.as_str())
            },
            SaveError::Cancelled { .. } => String::from_str("operation was cancelled"),
            SaveError::SourceReadFailed { msg, .. } => {
                String::from_str("failed to read from the byte source: ").concat(msg.as_str())
            },
            SaveError::CoercionFailed { msg, .. } => {
                String::from_str("cannot convert value to bytes: ").concat(msg.as_str())
            },
            SaveError::TransformFailed { msg, .. } => {
                String::from_str("format conversion failed: ").concat(msg.as_str())
            },
            SaveError::BackendWriteFailed { msg } => {
                String::from_str("could not write to the object store: ").concat(msg.as_str())
            },
        }
    }
}

} // verus!
