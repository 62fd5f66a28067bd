use cloud_save::cancel::CancelFlag;
use cloud_save::copy::{copy_step, generic_copy, CopyStep, ReadResult};
use cloud_save::dest::resolve_destination;
use cloud_save::error::{SaveError, Span};
use cloud_save::save::{bytestream_to_cloud, liststream_to_cloud, stream_values_to_session};
use cloud_save::session::UploadSession;
use cloud_save::value::Value;

use object_store::memory::InMemory;
use object_store::path::Path;
use object_store::{ObjectStore, ObjectStoreExt, WriteMultipart};
use tokio::runtime::Runtime;

fn sp(n: usize) -> Span {
    Span::new(n, n + 1)
}

fn runtime() -> Runtime {
    tokio::runtime::Builder::new_current_thread().build().unwrap()
}

fn open_session(rt: &Runtime, store: &InMemory, key: &str) -> UploadSession {
    let upload = rt.block_on(store.put_multipart(&Path::from(key))).unwrap();
    UploadSession::new(WriteMultipart::new(upload))
}

fn read_object(rt: &Runtime, store: &InMemory, key: &str) -> Option<Vec<u8>> {
    match rt.block_on(async {
        let r = store.get(&Path::from(key)).await?;
        r.bytes().await
    }) {
        Ok(b) => Some(b.to_vec()),
        Err(_) => None,
    }
}

#[test]
fn copy_loop_transfers_exactly_the_source_bytes() {
    let rt = runtime();
    let store = InMemory::new();
    let sess = open_session(&rt, &store, "copied");
    let mut sess = sess;
    let reads = vec![ReadResult::Chunk { data: vec![7u8; 1000] }, ReadResult::Done];
    let n = generic_copy(reads, &CancelFlag::new(), &mut sess, &rt, sp(0)).unwrap();
    assert_eq!(n, 1000);
    assert!(sess.finalize(&rt).is_ok());
    assert_eq!(read_object(&rt, &store, "copied"), Some(vec![7u8; 1000]));
}

#[test]
fn copy_loop_retries_interrupted_reads() {
    let rt = runtime();
    let store = InMemory::new();
    let mut sess = open_session(&rt, &store, "retried");
    let reads = vec![
        ReadResult::Chunk { data: b"ab".to_vec() },
        ReadResult::Interrupted,
        ReadResult::Chunk { data: b"cd".to_vec() },
        ReadResult::Done,
    ];
    let n = generic_copy(reads, &CancelFlag::new(), &mut sess, &rt, sp(0)).unwrap();
    assert_eq!(n, 4);
    assert!(sess.finalize(&rt).is_ok());
    assert_eq!(read_object(&rt, &store, "retried"), Some(b"abcd".to_vec()));
}

#[test]
fn copy_loop_stops_at_the_first_zero_read() {
    let rt = runtime();
    let store = InMemory::new();
    let mut sess = open_session(&rt, &store, "stopped");
    let reads = vec![
        ReadResult::Chunk { data: b"keep".to_vec() },
        ReadResult::Done,
        ReadResult::Chunk { data: b"dropped".to_vec() },
    ];
    let n = generic_copy(reads, &CancelFlag::new(), &mut sess, &rt, sp(0)).unwrap();
    assert_eq!(n, 4);
    assert!(sess.finalize(&rt).is_ok());
    assert_eq!(read_object(&rt, &store, "stopped"), Some(b"keep".to_vec()));
}

#[test]
fn copy_loop_reports_read_failures_with_the_span() {
    let rt = runtime();
    let store = InMemory::new();
    let mut sess = open_session(&rt, &store, "failed");
    let reads = vec![
        ReadResult::Chunk { data: b"x".to_vec() },
        ReadResult::Failed { msg: "pipe burst".to_string() },
    ];
    match generic_copy(reads, &CancelFlag::new(), &mut sess, &rt, sp(5)) {
        Err(SaveError::SourceReadFailed { msg, span }) => {
            assert_eq!(msg, "pipe burst");
            assert_eq!(span, sp(5));
        },
        other => panic!("expected a read failure, got {:?}", other),
    }
    assert_eq!(read_object(&rt, &store, "failed"), None);
}

#[test]
fn cancellation_before_the_first_chunk_writes_nothing() {
    let rt = runtime();
    let store = InMemory::new();
    let mut sess = open_session(&rt, &store, "cancelled");
    let cancel = CancelFlag::new();
    cancel.cancel();
    let reads = vec![ReadResult::Chunk { data: b"never".to_vec() }, ReadResult::Done];
    match generic_copy(reads, &cancel, &mut sess, &rt, sp(2)) {
        Err(SaveError::Cancelled { span }) => assert_eq!(span, sp(2)),
        other => panic!("expected cancellation, got {:?}", other),
    }
    // the session is abandoned unfinalized: nothing becomes visible
    assert_eq!(read_object(&rt, &store, "cancelled"), None);
}

#[test]
fn cancellation_is_shared_between_clones() {
    let a = CancelFlag::new();
    let b = a.clone();
    assert!(!a.is_cancelled());
    b.cancel();
    assert!(a.is_cancelled());
}

#[test]
fn copy_step_appends_one_chunk() {
    let rt = runtime();
    let store = InMemory::new();
    let mut sess = open_session(&rt, &store, "step");
    match copy_step(3, ReadResult::Chunk { data: b"ab".to_vec() }, &mut sess, &rt, sp(0)) {
        CopyStep::Continue { total } => assert_eq!(total, 5),
        _ => panic!("expected the copy to continue"),
    }
    match copy_step(5, ReadResult::Done, &mut sess, &rt, sp(0)) {
        CopyStep::Finished { total } => assert_eq!(total, 5),
        _ => panic!("expected the copy to finish"),
    }
}

#[test]
fn object_is_visible_only_after_finalize() {
    let rt = runtime();
    let store = InMemory::new();
    let mut sess = open_session(&rt, &store, "committed");
    sess.write(b"payload", &rt);
    assert_eq!(read_object(&rt, &store, "committed"), None);
    assert!(sess.finalize(&rt).is_ok());
    assert_eq!(read_object(&rt, &store, "committed"), Some(b"payload".to_vec()));
}

#[test]
fn raw_value_stream_concatenates_without_separators() {
    let rt = runtime();
    let store = InMemory::new();
    let sess = open_session(&rt, &store, "stream");
    let vals = vec![
        Value::Str { val: "a".to_string(), span: sp(0) },
        Value::Str { val: "b".to_string(), span: sp(1) },
    ];
    liststream_to_cloud(vals, &CancelFlag::new(), sess, &rt, sp(0)).unwrap();
    assert_eq!(read_object(&rt, &store, "stream"), Some(b"ab".to_vec()));
}

#[test]
fn stream_with_error_value_writes_nothing_for_it() {
    let rt = runtime();
    let store = InMemory::new();
    let mut sess = open_session(&rt, &store, "streamerr");
    let carried = SaveError::CoercionFailed { msg: "upstream".to_string(), span: sp(7) };
    let vals = vec![
        Value::Str { val: "good".to_string(), span: sp(0) },
        Value::Error { error: Box::new(carried.clone()), span: sp(1) },
        Value::Str { val: "after".to_string(), span: sp(2) },
    ];
    let r = stream_values_to_session(vals, &CancelFlag::new(), &mut sess, &rt, sp(0));
    assert_eq!(r, Err(carried));
    // abandoned unfinalized: the partial upload never becomes visible
    assert_eq!(read_object(&rt, &store, "streamerr"), None);
}

#[test]
fn cancelled_stream_fails_before_any_value() {
    let rt = runtime();
    let store = InMemory::new();
    let sess = open_session(&rt, &store, "streamcancel");
    let cancel = CancelFlag::new();
    cancel.cancel();
    let vals = vec![Value::Str { val: "a".to_string(), span: sp(0) }];
    match liststream_to_cloud(vals, &cancel, sess, &rt, sp(4)) {
        Err(SaveError::Cancelled { span }) => assert_eq!(span, sp(4)),
        other => panic!("expected cancellation, got {:?}", other),
    }
    assert_eq!(read_object(&rt, &store, "streamcancel"), None);
}

#[test]
fn bytestream_transfer_commits_on_success() {
    let rt = runtime();
    let store = InMemory::new();
    let sess = open_session(&rt, &store, "bytes");
    let reads = vec![ReadResult::Chunk { data: b"whole".to_vec() }, ReadResult::Done];
    bytestream_to_cloud(reads, &CancelFlag::new(), sess, &rt, sp(0)).unwrap();
    assert_eq!(read_object(&rt, &store, "bytes"), Some(b"whole".to_vec()));
}

#[test]
fn single_value_put_writes_the_exact_bytes() {
    // the materialize-then-put path: "hello", raw off, no extension,
    // written with one direct put that bypasses the multipart session
    let rt = runtime();
    let store = InMemory::new();
    let v = Value::Str { val: "hello".to_string(), span: sp(0) };
    assert_eq!(
        cloud_save::format::conversion_extension(&v, false, "s3://bucket/greeting"),
        None
    );
    let bytes = cloud_save::value::value_to_bytes(v).unwrap();
    assert_eq!(bytes.len(), 5);
    rt.block_on(store.put(&Path::from("greeting"), bytes.clone().into())).unwrap();
    assert_eq!(read_object(&rt, &store, "greeting"), Some(b"hello".to_vec()));
}

#[test]
fn well_formed_destination_resolves() {
    let d = resolve_destination("s3://bucket/key.json".to_string(), sp(1), sp(0)).unwrap();
    assert_eq!(d.text, "s3://bucket/key.json");
    assert_eq!(d.span, sp(1));
}

#[test]
fn malformed_destination_is_rejected_before_any_backend_work() {
    match resolve_destination("bucket/key-without-scheme".to_string(), sp(1), sp(0)) {
        Err(SaveError::InvalidLocation { msg, span, call_span }) => {
            assert_eq!(span, sp(1));
            assert_eq!(call_span, sp(0));
            assert!(!msg.is_empty());
        },
        Err(_) => panic!("expected an invalid location error"),
        Ok(_) => panic!("a destination without a scheme must not resolve"),
    }
}
