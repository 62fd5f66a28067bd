//! Streaming transfer engine for saving pipeline data to a remote object
//! store.
//!
//! The library classifies an incoming data channel (a raw byte source, a
//! stream of typed values, or a single in-memory value), converts each shape
//! into a byte sequence under fixed coercion rules, pumps the bytes through a
//! cancellation-aware copy loop into a multipart upload session, and commits
//! the upload once at the end.

pub mod cancel;
pub mod copy;
pub mod dest;
pub mod error;
pub mod format;
pub mod save;
pub mod session;
pub mod value;

use vstd::prelude::*;

verus! {

} // verus!
