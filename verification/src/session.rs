//! The multipart upload session: a thin adapter over the backend's
//! multipart-upload handle.
//!
//! Writing appends bytes to the handle's internal part buffer and has no
//! externally observable failure; part-upload errors surface only at
//! finalization. Finalizing consumes the session, so a finalized session
//! can never be given another write, and finalization happens at most once
//! per session — the backend object only becomes visible at its destination
//! after finalization succeeds.

use vstd::prelude::*;

use crate::error::SaveError;

verus! {

/// The multipart upload handle of the `object_store` crate, opaque to the
/// verifier; the session's contracts speak of it only through
/// [`multipart_contents`].
#[verifier::external_type_specification]
#[verifier::external_body]
pub struct ExWriteMultipart(object_store::WriteMultipart);

/// The execution context the upload protocol runs on, opaque to the
/// verifier.
#[verifier::external_type_specification]
#[verifier::external_body]
pub struct ExRuntime(tokio::runtime::Runtime);

/// The bytes a multipart upload handle has accepted so far, in order,
/// whether still buffered or already sent to the backend as parts.
pub uninterp spec fn multipart_contents(w: object_store::WriteMultipart) -> Seq<u8>;

/// Relies on `object_store::WriteMultipart::write`: appends the given bytes
/// to the handle's internal part buffer, starting part uploads as the
/// buffer reaches the part size. Entering the runtime provides the context
/// those uploads are started on.
#[verifier::external_body]
fn multipart_write(
    w: &mut object_store::WriteMultipart,
    chunk: &[u8],
    rt: &tokio::runtime::Runtime,
)
    ensures
        multipart_contents(*final(w)) == multipart_contents(*old(w)) + chunk@,
{
    let _guard = rt.enter();
    w.write(chunk);
}

/// Relies on `object_store::WriteMultipart::finish`, driven to completion
/// on the given runtime: flushes the buffered remainder, completes the
/// multipart upload on the backend, and reports the backend's message if
/// completion is rejected.
#[verifier::external_body]
fn multipart_finish(
    w: object_store::WriteMultipart,
    rt: &tokio::runtime::Runtime,
) -> (r: Result<(), String>) {
    match rt.block_on(w.finish()) {
        Ok(_) => Ok(()),
        Err(e) => Err(format!("{e}")),
    }
}

/// An upload session, owned exclusively by one transfer. Its view is the
/// byte sequence written so far.
pub struct UploadSession {
    handle: object_store::WriteMultipart,
}

impl View for UploadSession {
    type V = Seq<u8>;

    closed spec fn view(&self) -> Seq<u8> {
        multipart_contents(self.handle)
    }
}

impl UploadSession {
    /// Open a session over a freshly created backend multipart-upload
    /// handle.
    pub fn new(handle: object_store::WriteMultipart) -> (s: UploadSession)
        ensures
            s@ == multipart_contents(handle),
    {
        UploadSession { handle }
    }

    /// Append a chunk of bytes to the session. Buffering is infallible;
    /// backend errors surface only at [`UploadSession::finalize`].
    pub fn write(&mut self, chunk: &[u8], rt: &tokio::runtime::Runtime)
        ensures
            final(self)@ == old(self)@ + chunk@,
    {
        multipart_write(&mut self.handle, chunk, rt);
    }

    /// Flush any buffered remainder and complete the multipart upload
    /// transactionally on the backend. Consumes the session: no write can
    /// follow, and no session is finalized twice. Fails with
    /// `BackendWriteFailed`, carrying the backend's message, if the backend
    /// rejects completion.
    pub fn finalize(self, rt: &tokio::runtime::Runtime) -> (r: Result<(), SaveError>)
        ensures
            r matches Err(e) ==> e matches SaveError::BackendWriteFailed { .. },
    {
        match multipart_finish(self.handle, rt) {
            Ok(()) => Ok(()),
            Err(msg) => Err(SaveError::BackendWriteFailed { msg }),
        }
    }
}

} // verus!
