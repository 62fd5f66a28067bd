//! The cancellable copy loop: pumping bytes from a pull-style byte source
//! into an upload session in chunks.
//!
//! Each iteration checks the cancellation signal first and fails fast with
//! `Cancelled` if it is set; then one read outcome of the source is
//! handled. A zero-length read is the only normal termination. A transient
//! interruption is retried without consuming another cancellation check.
//! Any other read failure is wrapped with the source location and
//! propagated. Each non-empty chunk is appended to the session immediately;
//! no chunk is held longer than one iteration.

use vstd::prelude::*;

use crate::cancel::{check_cancelled, CancelFlag};
use crate::error::{SaveError, Span};
use crate::session::UploadSession;

verus! {

/// The size of the read buffer the surrounding program should hand the
/// byte source for each chunk.
pub const DEFAULT_BUF_SIZE: usize = 8192;

/// The outcome of asking the byte source for its next chunk.
pub enum ReadResult {
    /// The source produced a chunk of bytes.
    Chunk { data: Vec<u8> },
    /// A zero-length read: the end of the source was reached.
    Done,
    /// A transient interruption; the read is to be retried.
    Interrupted,
    /// A non-transient read failure, with the source's message.
    Failed { msg: String },
}

/// The bytes the copy loop appends to the session over a sequence of read
/// outcomes: every chunk before the first end-of-source or failure.
pub open spec fn copied_bytes(reads: Seq<ReadResult>) -> Seq<u8>
    decreases reads.len(),
{
    if reads.len() == 0 {
        Seq::<u8>::empty()
    } else {
        match reads[0] {
            ReadResult::Chunk { data } => data@ + copied_bytes(reads.drop_first()),
            ReadResult::Done => Seq::<u8>::empty(),
            ReadResult::Interrupted => copied_bytes(reads.drop_first()),
            ReadResult::Failed { .. } => Seq::<u8>::empty(),
        }
    }
}

/// Whether a sequence of read outcomes copies without failure: no
/// non-transient failure occurs before the end of the source.
pub open spec fn copy_ok(reads: Seq<ReadResult>) -> bool
    decreases reads.len(),
{
    if reads.len() == 0 {
        true
    } else {
        match reads[0] {
            ReadResult::Chunk { .. } => copy_ok(reads.drop_first()),
            ReadResult::Done => true,
            ReadResult::Interrupted => copy_ok(reads.drop_first()),
            ReadResult::Failed { .. } => false,
        }
    }
}

/// The message of the failure that ends an unsuccessful copy.
pub open spec fn copy_failure(reads: Seq<ReadResult>) -> Seq<char>
    decreases reads.len(),
{
    if reads.len() == 0 {
        Seq::<char>::empty()
    } else {
        match reads[0] {
            ReadResult::Chunk { .. } => copy_failure(reads.drop_first()),
            ReadResult::Done => Seq::<char>::empty(),
            ReadResult::Interrupted => copy_failure(reads.drop_first()),
            ReadResult::Failed { msg } => msg@,
        }
    }
}

/// Whether a sequence of read outcomes leaves the copy still running:
/// neither the end of the source nor a failure occurs in it.
pub open spec fn copy_open(reads: Seq<ReadResult>) -> bool
    decreases reads.len(),
{
    if reads.len() == 0 {
        true
    } else {
        match reads[0] {
            ReadResult::Chunk { .. } => copy_open(reads.drop_first()),
            ReadResult::Done => false,
            ReadResult::Interrupted => copy_open(reads.drop_first()),
            ReadResult::Failed { .. } => false,
        }
    }
}

proof fn lemma_copy_snoc(p: Seq<ReadResult>, x: ReadResult)
    requires
        copy_open(p),
    ensures
        x matches ReadResult::Chunk { data } ==> (copied_bytes(p.push(x)) == copied_bytes(p)
            + data@ && copy_open(p.push(x))),
        x is Done ==> (copied_bytes(p.push(x)) == copied_bytes(p) && !copy_open(p.push(x))
            && copy_ok(p.push(x))),
        x is Interrupted ==> (copied_bytes(p.push(x)) == copied_bytes(p) && copy_open(p.push(x))),
        x matches ReadResult::Failed { msg } ==> (copied_bytes(p.push(x)) == copied_bytes(p)
            && !copy_open(p.push(x)) && !copy_ok(p.push(x)) && copy_failure(p.push(x)) == msg@),
    decreases p.len(),
{
    if p.len() == 0 {
        assert(p.push(x).drop_first() =~= Seq::<ReadResult>::empty());
        assert(copied_bytes(Seq::<ReadResult>::empty()) =~= Seq::<u8>::empty());
        assert(copy_open(Seq::<ReadResult>::empty()));
        assert(copy_ok(Seq::<ReadResult>::empty()));
        assert(copy_failure(Seq::<ReadResult>::empty()) =~= Seq::<char>::empty());
        assert(p.push(x)[0] == x);
        match x {
            ReadResult::Chunk { data } => {
                assert(copied_bytes(p.push(x)) =~= copied_bytes(p) + data@);
            },
            _ => {},
        }
    } else {
        assert(p.push(x).drop_first() =~= p.drop_first().push(x));
        assert(p.push(x)[0] == p[0]);
        lemma_copy_snoc(p.drop_first(), x);
        match x {
            ReadResult::Chunk { data } => {
                assert(copied_bytes(p.push(x)) =~= copied_bytes(p) + data@);
            },
            _ => {},
        }
    }
}

proof fn lemma_copy_split(s: Seq<ReadResult>, i: int)
    requires
        0 <= i <= s.len(),
        copy_open(s.take(i)),
    ensures
        copied_bytes(s) == copied_bytes(s.take(i)) + copied_bytes(s.skip(i)),
        copy_ok(s) == copy_ok(s.skip(i)),
        copy_failure(s) == copy_failure(s.skip(i)),
    decreases i,
{
    if i == 0 {
        assert(s.skip(0) =~= s);
        assert(copied_bytes(s.take(0)) + copied_bytes(s) =~= copied_bytes(s));
    } else {
        assert(s.take(i)[0] == s[0]);
        assert(s.take(i).drop_first() =~= s.drop_first().take(i - 1));
        assert(s.drop_first().skip(i - 1) =~= s.skip(i));
        lemma_copy_split(s.drop_first(), i - 1);
        match s[0] {
            ReadResult::Chunk { data } => {
                assert(copied_bytes(s) =~= copied_bytes(s.take(i)) + copied_bytes(s.skip(i)));
            },
            ReadResult::Interrupted => {
                assert(copied_bytes(s) =~= copied_bytes(s.take(i)) + copied_bytes(s.skip(i)));
            },
            _ => {},
        }
    }
}

/// What one copy-loop iteration decided.
pub enum CopyStep {
    /// A chunk was appended to the session; copying continues with the new
    /// running total.
    Continue { total: u64 },
    /// The end of the source was reached; the copy is complete.
    Finished { total: u64 },
    /// A transient interruption; the read is retried without another
    /// cancellation check.
    Retry,
    /// A non-transient failure; the copy is abandoned.
    Fail { err: SaveError },
}

/// Handle the outcome of one read: append a chunk to the session, finish
/// on a zero-length read, retry a transient interruption, or abandon the
/// copy on any other failure, wrapping it with the source location.
pub fn copy_step(
    total: u64,
    read: ReadResult,
    sess: &mut UploadSession,
    rt: &tokio::runtime::Runtime,
    span: Span,
) -> (r: CopyStep)
    requires
        read matches ReadResult::Chunk { data } ==> total + data@.len() <= u64::MAX,
    ensures
        read matches ReadResult::Chunk { data } ==> (r == (CopyStep::Continue {
            total: (total + data@.len()) as u64,
        }) && final(sess)@ == old(sess)@ + data@),
        read is Done ==> (r == (CopyStep::Finished { total }) && final(sess)@ == old(sess)@),
        read is Interrupted ==> (r == CopyStep::Retry && final(sess)@ == old(sess)@),
        read matches ReadResult::Failed { msg } ==> (r == (CopyStep::Fail {
            err: SaveError::SourceReadFailed { msg, span },
        }) && final(sess)@ == old(sess)@),
{
    match read {
        ReadResult::Chunk { data } => {
            let n = data.len();
            sess.write(data.as_slice(), rt);
            CopyStep::Continue { total: total + n as u64 }
        },
        ReadResult::Done => CopyStep::Finished { total },
        ReadResult::Interrupted => CopyStep::Retry,
        ReadResult::Failed { msg } => CopyStep::Fail {
            err: SaveError::SourceReadFailed { msg, span },
        },
    }
}

/// The cancellable copy loop, over the sequence of read outcomes a byte
/// source produces.
///
/// On success the session has grown by exactly the chunks the source
/// produced before its end, in order, and the returned count is their total
/// length. On a read failure the failure's message is reported and the
/// session holds every chunk read before it. On cancellation the session
/// holds the chunks of some prefix of the outcomes. A source whose outcomes
/// are exhausted without a zero-length read is treated as ended.
#[verifier::loop_isolation(false)]
pub fn generic_copy(
    reads: Vec<ReadResult>,
    cancel: &CancelFlag,
    sess: &mut UploadSession,
    rt: &tokio::runtime::Runtime,
    span: Span,
) -> (r: Result<u64, SaveError>)
    requires
        copied_bytes(reads@).len() <= u64::MAX,
    ensures
        r matches Ok(n) ==> (copy_ok(reads@) && final(sess)@ == old(sess)@ + copied_bytes(reads@)
            && n == copied_bytes(reads@).len()),
        !copy_ok(reads@) ==> r is Err,
        r matches Err(e) ==> (e matches SaveError::Cancelled { .. } || e
            matches SaveError::SourceReadFailed { .. }),
        r matches Err(e) ==> (e matches SaveError::Cancelled { span: sp } ==> (sp == span
            && exists|k: int|
            0 <= k <= reads@.len() && final(sess)@ == old(sess)@ + #[trigger] copied_bytes(
                reads@.take(k),
            ))),
        r matches Err(e) ==> (e matches SaveError::SourceReadFailed { msg, span: sp } ==> (sp
            == span && !copy_ok(reads@) && msg@ == copy_failure(reads@) && final(sess)@ == old(
            sess,
        )@ + copied_bytes(reads@))),
{
    let ghost all = reads@;
    let n = reads.len();
    let mut reads = reads;
    let mut total: u64 = 0;
    let mut i: usize = 0;
    let mut check_next: bool = true;
    while i < n
        invariant
            i <= n,
            n == all.len(),
            reads@ =~= all.skip(i as int),
            copy_open(all.take(i as int)),
            sess@ == old(sess)@ + copied_bytes(all.take(i as int)),
            total == copied_bytes(all.take(i as int)).len(),
        decreases n - i,
    {
        if check_next {
            if let Err(e) = check_cancelled(cancel, span) {
                return Err(e);
            }
        }
        let x = reads.remove(0);
        proof {
            assert(x == all[i as int]);
            assert(reads@ =~= all.skip(i as int + 1));
            assert(all.take(i as int + 1) =~= all.take(i as int).push(x));
            lemma_copy_snoc(all.take(i as int), x);
            if x matches ReadResult::Chunk { .. } {
                lemma_copy_split(all, i as int + 1);
            }
        }
        match copy_step(total, x, sess, rt, span) {
            CopyStep::Continue { total: t } => {
                total = t;
                check_next = true;
            },
            CopyStep::Finished { .. } => {
                proof {
                    lemma_copy_split(all, i as int);
                    assert(all.skip(i as int)[0] == x);
                    assert(copied_bytes(all.skip(i as int)) =~= Seq::<u8>::empty());
                    assert(copied_bytes(all.take(i as int)) + Seq::<u8>::empty() =~= copied_bytes(
                        all.take(i as int),
                    ));
                }
                return Ok(total);
            },
            CopyStep::Retry => {
                check_next = false;
            },
            CopyStep::Fail { err } => {
                proof {
                    lemma_copy_split(all, i as int);
                    assert(all.skip(i as int)[0] == x);
                    assert(copied_bytes(all.skip(i as int)) =~= Seq::<u8>::empty());
                    assert(copied_bytes(all.take(i as int)) + Seq::<u8>::empty() =~= copied_bytes(
                        all.take(i as int),
                    ));
                }
                return Err(err);
            },
        }
        i += 1;
    }
    proof {
        assert(all.take(n as int) =~= all);
        lemma_copy_split(all, n as int);
        assert(all.skip(n as int) =~= Seq::<ReadResult>::empty());
        assert(copy_ok(Seq::<ReadResult>::empty()));
    }
    Ok(total)
}

} // verus!
