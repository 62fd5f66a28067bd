//! The cooperative cancellation signal.
//!
//! The signal is a shared flag, polled (never pushed) at fixed points of the
//! transfer. Its only contract is "has cancellation been requested as of
//! this check": any holder of the signal may request cancellation at any
//! time, so one poll says nothing about what the next poll returns.

use vstd::prelude::*;

use crate::error::{SaveError, Span};

verus! {

/// A shared cancellation signal. Cloning yields another handle on the same
/// signal, so a request made through one handle is observed through all.
#[derive(Clone)]
pub struct CancelFlag {
    inner: std::sync::Arc<std::sync::atomic::AtomicBool>,
}

impl CancelFlag {
    /// A fresh signal on which cancellation has not yet been requested.
    pub fn new() -> (f: CancelFlag) {
        CancelFlag { inner: std::sync::Arc::new(std::sync::atomic::AtomicBool::new(false)) }
    }

    /// Request cancellation, for every holder of this signal.
    pub fn cancel(&self) {
        self.inner.store(true, std::sync::atomic::Ordering::Relaxed);
    }

    /// Whether cancellation has been requested as of this check.
    pub fn is_cancelled(&self) -> (r: bool) {
        self.inner.load(std::sync::atomic::Ordering::Relaxed)
    }
}

/// Poll the cancellation signal once and fail fast with `Cancelled`,
/// attributed to the given span, if cancellation has been requested.
pub fn check_cancelled(flag: &CancelFlag, span: Span) -> (r: Result<(), SaveError>)
    ensures
        r matches Err(e) ==> e == (SaveError::Cancelled { span }),
{
    if flag.is_cancelled() {
        Err(SaveError::Cancelled { span })
    } else {
        Ok(())
    }
}

} // verus!
