//! The save command: classifying the incoming pipeline channel and driving
//! the matching transfer strategy.
//!
//! A raw byte source always streams through the cancellable copy loop into
//! the multipart session, whatever the raw flag says. A value stream in raw
//! mode writes each produced value independently, in arrival order, with
//! one cancellation check per value. Everything else — a single value, or a
//! value stream without raw mode — is materialized into one value,
//! optionally rewritten by the format bridge, coerced once, and written
//! with a single direct put that bypasses the multipart session entirely.

use vstd::prelude::*;

use crate::cancel::{check_cancelled, CancelFlag};
use crate::copy::{copied_bytes, copy_failure, copy_ok, generic_copy, ReadResult};
use crate::error::{SaveError, Span};
use crate::session::UploadSession;
use crate::value::{
    all_coercible, list_error_ok, value_bytes, value_bytes_ok, value_to_bytes, Value,
};

verus! {

/// The save command.
pub struct Save;

impl Save {
    /// The command's name.
    pub fn name(&self) -> (r: &'static str)
        ensures
            r@ == "cloud save"@,
    {
        "cloud save"
    }

    /// What the command does.
    pub fn usage(&self) -> (r: &'static str)
        ensures
            r@ == "Save pipeline input to a cloud object store."@,
    {
        "Save pipeline input to a cloud object store."
    }
}

/// The shape of the incoming pipeline channel, as far as the classifier
/// reads it.
#[derive(Clone, Copy, Debug, PartialEq, Eq, Structural)]
pub enum ChannelKind {
    /// A raw, pull-style byte source; `has_output` is false only for a
    /// child process that exposes no output pipe.
    ByteSource { has_output: bool },
    /// A lazy stream of typed values.
    ValueStream,
    /// One fully materialized value.
    SingleValue,
}

/// The transfer strategy the dispatcher selects.
#[derive(Clone, Copy, Debug, PartialEq, Eq, Structural)]
pub enum Route {
    /// Stream the byte source through the cancellable copy loop into the
    /// multipart session.
    CopyBytes,
    /// A child process without an output pipe: nothing is written, the
    /// call still succeeds.
    NothingToDo,
    /// Write each produced value of the stream independently into the
    /// multipart session.
    StreamValues,
    /// Materialize one value, optionally convert it, coerce it once, and
    /// write it with a single direct put.
    SinglePut,
}

/// The strategy for each channel shape: a byte source always streams,
/// a value stream streams value-by-value only in raw mode, and everything
/// else is materialized and written with one put.
pub open spec fn spec_classify(kind: ChannelKind, raw: bool) -> Route {
    match kind {
        ChannelKind::ByteSource { has_output } => if has_output {
            Route::CopyBytes
        } else {
            Route::NothingToDo
        },
        ChannelKind::ValueStream => if raw {
            Route::StreamValues
        } else {
            Route::SinglePut
        },
        ChannelKind::SingleValue => Route::SinglePut,
    }
}

/// Select exactly one transfer strategy for the given channel shape and
/// raw flag.
pub fn classify(kind: ChannelKind, raw: bool) -> (r: Route)
    ensures
        r == spec_classify(kind, raw),
{
    match kind {
        ChannelKind::ByteSource { has_output } => if has_output {
            Route::CopyBytes
        } else {
            Route::NothingToDo
        },
        ChannelKind::ValueStream => if raw {
            Route::StreamValues
        } else {
            Route::SinglePut
        },
        ChannelKind::SingleValue => Route::SinglePut,
    }
}

/// Whether every value of a stream coerces to bytes.
pub open spec fn stream_ok(vs: Seq<Value>) -> bool {
    forall|i: int| 0 <= i < vs.len() ==> value_bytes_ok(#[trigger] vs[i])
}

/// The bytes a raw-mode value stream writes: each value's coerced bytes in
/// arrival order, up to the first value that fails coercion, with no
/// injected separators.
pub open spec fn stream_bytes(vs: Seq<Value>) -> Seq<u8>
    decreases vs.len(),
{
    if vs.len() == 0 {
        Seq::<u8>::empty()
    } else if value_bytes_ok(vs[0]) {
        value_bytes(vs[0]) + stream_bytes(vs.drop_first())
    } else {
        Seq::<u8>::empty()
    }
}

/// The index of the first value of a stream that fails coercion.
pub open spec fn first_stream_bad(vs: Seq<Value>) -> int
    decreases vs.len(),
{
    if vs.len() == 0 {
        0
    } else if !value_bytes_ok(vs[0]) {
        0
    } else {
        1 + first_stream_bad(vs.drop_first())
    }
}

/// What a failed stream transfer returns: the first value that fails
/// coercion decides, an error-carrying value propagating its carried error
/// unchanged and a list failing with its first offending element's error.
pub open spec fn stream_error_ok<T>(vs: Seq<Value>, r: Result<T, SaveError>) -> bool {
    let bad = vs[first_stream_bad(vs)];
    &&& (bad matches Value::Error { error, .. } ==> r == Err::<T, SaveError>(*error))
    &&& (bad matches Value::List { vals, .. } ==> (!all_coercible(vals@) && list_error_ok(
        vals@,
        r,
    )))
}

proof fn lemma_first_stream_bad_at(vs: Seq<Value>, i: int)
    requires
        0 <= i < vs.len(),
        !value_bytes_ok(vs[i]),
        forall|j: int| 0 <= j < i ==> value_bytes_ok(#[trigger] vs[j]),
    ensures
        first_stream_bad(vs) == i,
    decreases vs.len(),
{
    if i == 0 {
    } else {
        assert forall|j: int| 0 <= j < i - 1 implies value_bytes_ok(
            #[trigger] vs.drop_first()[j],
        ) by {
            assert(vs.drop_first()[j] == vs[j + 1]);
        }
        assert(vs.drop_first()[i - 1] == vs[i]);
        lemma_first_stream_bad_at(vs.drop_first(), i - 1);
    }
}

proof fn lemma_stream_snoc(p: Seq<Value>, v: Value)
    requires
        stream_ok(p),
    ensures
        value_bytes_ok(v) ==> stream_bytes(p.push(v)) == stream_bytes(p) + value_bytes(v),
        !value_bytes_ok(v) ==> stream_bytes(p.push(v)) == stream_bytes(p),
    decreases p.len(),
{
    if p.len() == 0 {
        assert(p.push(v).drop_first() =~= Seq::<Value>::empty());
        assert(stream_bytes(Seq::<Value>::empty()) =~= Seq::<u8>::empty());
        assert(p.push(v)[0] == v);
        if value_bytes_ok(v) {
            assert(stream_bytes(p.push(v)) =~= stream_bytes(p) + value_bytes(v));
        }
    } else {
        assert(p.push(v).drop_first() =~= p.drop_first().push(v));
        assert(p.push(v)[0] == p[0]);
        assert(stream_ok(p.drop_first())) by {
            assert forall|j: int| 0 <= j < p.drop_first().len() implies value_bytes_ok(
                #[trigger] p.drop_first()[j],
            ) by {
                assert(p.drop_first()[j] == p[j + 1]);
            }
        }
        lemma_stream_snoc(p.drop_first(), v);
        if value_bytes_ok(v) {
            assert(stream_bytes(p.push(v)) =~= stream_bytes(p) + value_bytes(v));
        }
    }
}

proof fn lemma_stream_prefix(s: Seq<Value>, i: int)
    requires
        0 <= i <= s.len(),
        forall|j: int| 0 <= j < i ==> value_bytes_ok(#[trigger] s[j]),
    ensures
        stream_bytes(s) == stream_bytes(s.take(i)) + stream_bytes(s.skip(i)),
    decreases i,
{
    if i == 0 {
        assert(s.skip(0) =~= s);
        assert(stream_bytes(s.take(0)) + stream_bytes(s) =~= stream_bytes(s));
    } else {
        assert(s.take(i)[0] == s[0]);
        assert(s.take(i).drop_first() =~= s.drop_first().take(i - 1));
        assert(s.drop_first().skip(i - 1) =~= s.skip(i));
        assert forall|j: int| 0 <= j < i - 1 implies value_bytes_ok(
            #[trigger] s.drop_first()[j],
        ) by {
            assert(s.drop_first()[j] == s[j + 1]);
        }
        lemma_stream_prefix(s.drop_first(), i - 1);
        assert(stream_bytes(s) =~= stream_bytes(s.take(i)) + stream_bytes(s.skip(i)));
    }
}

/// Write one produced value of a raw-mode value stream: coerce it and
/// append its bytes to the session as one chunk. When coercion fails,
/// nothing at all is written for the value and the coercion's error — the
/// carried error of an error value, unchanged — is propagated.
pub fn write_stream_value(v: Value, sess: &mut UploadSession, rt: &tokio::runtime::Runtime) -> (r:
    Result<(), SaveError>)
    ensures
        value_bytes_ok(v) ==> (r is Ok && final(sess)@ == old(sess)@ + value_bytes(v)),
        !value_bytes_ok(v) ==> (r is Err && final(sess)@ == old(sess)@),
        v matches Value::Error { error, .. } ==> r == Err::<(), SaveError>(*error),
        v matches Value::List { vals, .. } ==> (!all_coercible(vals@) ==> list_error_ok(vals@, r)),
{
    match value_to_bytes(v) {
        Ok(b) => {
            sess.write(b.as_slice(), rt);
            Ok(())
        },
        Err(e) => Err(e),
    }
}

/// Transfer a raw-mode value stream into the session: for each value in
/// arrival order, check the cancellation signal once, then coerce the
/// value and append its bytes.
///
/// On success the session has grown by exactly the values' bytes,
/// concatenated in order with no injected separators. The first value that
/// fails coercion aborts the transfer with its error, the session holding
/// exactly the bytes of the values before it. On cancellation the session
/// holds the bytes of some prefix of the values.
#[verifier::loop_isolation(false)]
pub fn stream_values_to_session(
    vals: Vec<Value>,
    cancel: &CancelFlag,
    sess: &mut UploadSession,
    rt: &tokio::runtime::Runtime,
    span: Span,
) -> (r: Result<(), SaveError>)
    ensures
        r is Ok ==> (stream_ok(vals@) && final(sess)@ == old(sess)@ + stream_bytes(vals@)),
        !stream_ok(vals@) ==> r is Err,
        r matches Err(e) ==> ((e matches SaveError::Cancelled { span: sp } && sp == span
            && exists|k: int|
            0 <= k <= vals@.len() && final(sess)@ == old(sess)@ + #[trigger] stream_bytes(
                vals@.take(k),
            )) || (!stream_ok(vals@) && stream_error_ok(vals@, r) && final(sess)@ == old(sess)@
            + stream_bytes(vals@))),
{
    let ghost all = vals@;
    let n = vals.len();
    let mut vals = vals;
    let mut i: usize = 0;
    while i < n
        invariant
            i <= n,
            n == all.len(),
            vals@ =~= all.skip(i as int),
            forall|j: int| 0 <= j < i ==> value_bytes_ok(#[trigger] all[j]),
            sess@ == old(sess)@ + stream_bytes(all.take(i as int)),
        decreases n - i,
    {
        if let Err(e) = check_cancelled(cancel, span) {
            return Err(e);
        }
        let v = vals.remove(0);
        proof {
            assert(v == all[i as int]);
            assert(vals@ =~= all.skip(i as int + 1));
            assert(all.take(i as int + 1) =~= all.take(i as int).push(v));
            assert(stream_ok(all.take(i as int))) by {
                assert forall|j: int| 0 <= j < i implies value_bytes_ok(
                    #[trigger] all.take(i as int)[j],
                ) by {
                    assert(all.take(i as int)[j] == all[j]);
                }
            }
            lemma_stream_snoc(all.take(i as int), v);
        }
        match write_stream_value(v, sess, rt) {
            Ok(()) => {},
            Err(e) => {
                proof {
                    lemma_first_stream_bad_at(all, i as int);
                    lemma_stream_prefix(all, i as int);
                    assert(all.skip(i as int)[0] == v);
                    assert(stream_bytes(all.skip(i as int)) =~= Seq::<u8>::empty());
                    assert(stream_bytes(all.take(i as int)) + Seq::<u8>::empty() =~= stream_bytes(
                        all.take(i as int),
                    ));
                    assert(!stream_ok(all));
                }
                return Err(e);
            },
        }
        i += 1;
    }
    proof {
        assert(all.take(n as int) =~= all);
    }
    Ok(())
}

/// Transfer a raw-mode value stream and commit: the per-value loop, then
/// exactly one finalize. On any failure in the loop the session is
/// abandoned unfinalized, so nothing becomes visible at the destination.
pub fn liststream_to_cloud(
    vals: Vec<Value>,
    cancel: &CancelFlag,
    sess: UploadSession,
    rt: &tokio::runtime::Runtime,
    span: Span,
) -> (r: Result<(), SaveError>)
    ensures
        r is Ok ==> stream_ok(vals@),
        !stream_ok(vals@) ==> r is Err,
        r matches Err(e) ==> ((e matches SaveError::Cancelled { span: sp } && sp == span) || e
            matches SaveError::BackendWriteFailed { .. } || (!stream_ok(vals@) && stream_error_ok(
            vals@,
            r,
        ))),
{
    let mut sess = sess;
    match stream_values_to_session(vals, cancel, &mut sess, rt, span) {
        Ok(()) => sess.finalize(rt),
        Err(e) => Err(e),
    }
}

/// Transfer a raw byte source and commit: the cancellable copy loop, then
/// exactly one finalize. On any failure in the loop the session is
/// abandoned unfinalized, so nothing becomes visible at the destination.
pub fn bytestream_to_cloud(
    reads: Vec<ReadResult>,
    cancel: &CancelFlag,
    sess: UploadSession,
    rt: &tokio::runtime::Runtime,
    span: Span,
) -> (r: Result<(), SaveError>)
    requires
        copied_bytes(reads@).len() <= u64::MAX,
    ensures
        r is Ok ==> copy_ok(reads@),
        !copy_ok(reads@) ==> r is Err,
        r matches Err(e) ==> ((e matches SaveError::Cancelled { span: sp } && sp == span) || e
            matches SaveError::BackendWriteFailed { .. } || e
            matches SaveError::SourceReadFailed { .. }),
        r matches Err(e) ==> (e matches SaveError::SourceReadFailed { msg, span: sp } ==> (sp
            == span && msg@ == copy_failure(reads@) && !copy_ok(reads@))),
{
    let mut sess = sess;
    match generic_copy(reads, cancel, &mut sess, rt, span) {
        Ok(_) => sess.finalize(rt),
        Err(e) => Err(e),
    }
}

} // verus!
