use cloud_save::error::{SaveError, Span};
use cloud_save::format::{
    apply_transform_outcome, conversion_command, conversion_extension, path_extension,
    TransformOutcome,
};
use cloud_save::save::{classify, ChannelKind, Route, Save};
use cloud_save::value::{coerce_into_string, value_to_bytes, Value};

fn sp(n: usize) -> Span {
    Span::new(n, n + 1)
}

fn s(text: &str) -> Value {
    Value::Str { val: text.to_string(), span: sp(0) }
}

#[test]
fn string_value_is_its_utf8_bytes() {
    let r = value_to_bytes(s("héllo")).unwrap();
    assert_eq!(r, "héllo".as_bytes().to_vec());
}

#[test]
fn string_value_round_trips_through_utf8() {
    let r = value_to_bytes(s("grüße 漢字")).unwrap();
    assert_eq!(String::from_utf8(r).unwrap(), "grüße 漢字");
}

#[test]
fn plain_string_gets_no_trailing_newline() {
    let r = value_to_bytes(s("hello")).unwrap();
    assert_eq!(r.len(), 5);
    assert_eq!(r, b"hello".to_vec());
}

#[test]
fn binary_value_is_passed_through() {
    let r = value_to_bytes(Value::Binary { bytes: vec![0u8, 255, 10], span: sp(0) }).unwrap();
    assert_eq!(r, vec![0u8, 255, 10]);
}

#[test]
fn other_value_uses_its_string_representation() {
    let r = value_to_bytes(Value::Other { repr: "42".to_string(), span: sp(0) }).unwrap();
    assert_eq!(r, b"42".to_vec());
}

#[test]
fn list_joins_with_newlines_and_trailing_newline() {
    let v = Value::List { vals: vec![s("a"), s("b"), s("c")], span: sp(0) };
    assert_eq!(value_to_bytes(v).unwrap(), b"a\nb\nc\n".to_vec());
}

#[test]
fn list_of_one_element_gets_one_trailing_newline() {
    let v = Value::List { vals: vec![s("a")], span: sp(0) };
    assert_eq!(value_to_bytes(v).unwrap(), b"a\n".to_vec());
}

#[test]
fn empty_list_is_a_single_newline() {
    let v = Value::List { vals: vec![], span: sp(0) };
    assert_eq!(value_to_bytes(v).unwrap(), b"\n".to_vec());
}

#[test]
fn list_may_mix_strings_and_representable_values() {
    let v = Value::List {
        vals: vec![s("x"), Value::Other { repr: "7".to_string(), span: sp(1) }],
        span: sp(0),
    };
    assert_eq!(value_to_bytes(v).unwrap(), b"x\n7\n".to_vec());
}

#[test]
fn top_level_error_value_propagates_verbatim() {
    let carried = SaveError::TransformFailed { msg: "boom".to_string(), span: sp(3) };
    let v = Value::Error { error: Box::new(carried.clone()), span: sp(0) };
    assert_eq!(value_to_bytes(v), Err(carried));
}

#[test]
fn error_value_inside_list_propagates_verbatim() {
    let carried = SaveError::BackendWriteFailed { msg: "backend said no".to_string() };
    let v = Value::List {
        vals: vec![s("ok"), Value::Error { error: Box::new(carried.clone()), span: sp(1) }],
        span: sp(0),
    };
    assert_eq!(value_to_bytes(v), Err(carried));
}

#[test]
fn binary_inside_list_fails_coercion() {
    let v = Value::List {
        vals: vec![s("ok"), Value::Binary { bytes: vec![1u8], span: sp(9) }],
        span: sp(0),
    };
    match value_to_bytes(v) {
        Err(SaveError::CoercionFailed { span, .. }) => assert_eq!(span, sp(9)),
        other => panic!("expected a coercion failure, got {:?}", other),
    }
}

#[test]
fn coerce_into_string_keeps_strings() {
    let r = coerce_into_string(s("abc")).unwrap();
    assert_eq!(r, "abc");
}

#[test]
fn coerce_into_string_rejects_lists() {
    let v = Value::List { vals: vec![], span: sp(4) };
    match coerce_into_string(v) {
        Err(SaveError::CoercionFailed { span, .. }) => assert_eq!(span, sp(4)),
        other => panic!("expected a coercion failure, got {:?}", other),
    }
}

#[test]
fn byte_source_always_streams() {
    assert_eq!(
        classify(ChannelKind::ByteSource { has_output: true }, false),
        Route::CopyBytes
    );
    assert_eq!(
        classify(ChannelKind::ByteSource { has_output: true }, true),
        Route::CopyBytes
    );
}

#[test]
fn child_without_output_is_a_no_op() {
    assert_eq!(
        classify(ChannelKind::ByteSource { has_output: false }, true),
        Route::NothingToDo
    );
}

#[test]
fn value_stream_streams_only_in_raw_mode() {
    assert_eq!(classify(ChannelKind::ValueStream, true), Route::StreamValues);
    assert_eq!(classify(ChannelKind::ValueStream, false), Route::SinglePut);
}

#[test]
fn single_value_is_a_single_put() {
    assert_eq!(classify(ChannelKind::SingleValue, false), Route::SinglePut);
    assert_eq!(classify(ChannelKind::SingleValue, true), Route::SinglePut);
}

#[test]
fn extension_of_plain_path() {
    assert_eq!(path_extension("s3://bucket/data.json"), Some("json".to_string()));
}

#[test]
fn extension_takes_the_last_dot() {
    assert_eq!(path_extension("a/b.tar.gz"), Some("gz".to_string()));
}

#[test]
fn hidden_file_has_no_extension() {
    assert_eq!(path_extension("dir/.bashrc"), None);
    assert_eq!(path_extension(".bashrc"), None);
}

#[test]
fn trailing_dot_gives_empty_extension() {
    assert_eq!(path_extension("a/b."), Some(String::new()));
}

#[test]
fn dot_in_earlier_component_does_not_count() {
    assert_eq!(path_extension("dir.d/file"), None);
    assert_eq!(path_extension("s3://bucket/file"), None);
}

#[test]
fn no_conversion_in_raw_mode() {
    let v = Value::Other { repr: "1".to_string(), span: sp(0) };
    assert_eq!(conversion_extension(&v, true, "s3://b/k.json"), None);
}

#[test]
fn no_conversion_for_string_values() {
    assert_eq!(conversion_extension(&s("hello"), false, "s3://b/k.json"), None);
}

#[test]
fn no_conversion_without_extension() {
    let v = Value::Other { repr: "1".to_string(), span: sp(0) };
    assert_eq!(conversion_extension(&v, false, "s3://b/k"), None);
}

#[test]
fn conversion_targets_the_extension() {
    let v = Value::Other { repr: "1".to_string(), span: sp(0) };
    assert_eq!(
        conversion_extension(&v, false, "s3://b/k.json"),
        Some("json".to_string())
    );
}

#[test]
fn conversion_command_name() {
    assert_eq!(conversion_command("json"), "to json");
}

#[test]
fn unregistered_transform_passes_through() {
    let r = apply_transform_outcome(s("x"), TransformOutcome::NotFound, sp(0));
    assert_eq!(r, Ok(s("x")));
}

#[test]
fn transform_result_replaces_the_input() {
    let out = TransformOutcome::Transformed { value: s("converted") };
    assert_eq!(apply_transform_outcome(s("x"), out, sp(0)), Ok(s("converted")));
}

#[test]
fn failed_transform_propagates() {
    let out = TransformOutcome::Failed { msg: "bad format".to_string() };
    assert_eq!(
        apply_transform_outcome(s("x"), out, sp(2)),
        Err(SaveError::TransformFailed { msg: "bad format".to_string(), span: sp(2) })
    );
}

#[test]
fn command_metadata() {
    let cmd = Save;
    assert_eq!(cmd.name(), "cloud save");
    assert!(!cmd.usage().is_empty());
}

#[test]
fn error_descriptions_name_the_stage() {
    let e = SaveError::Cancelled { span: sp(0) };
    assert!(e.describe().contains("cancelled"));
    let e = SaveError::BackendWriteFailed { msg: "x".to_string() };
    assert!(e.describe().contains("object store"));
}

#[test]
fn input_without_bridge_is_coerced_directly() {
    let r = cloud_save::format::input_to_bytes(s("plain"), None, sp(0)).unwrap();
    assert_eq!(r, b"plain".to_vec());
}

#[test]
fn input_with_transform_uses_the_transformed_value() {
    let bridge = Some(TransformOutcome::Transformed { value: s("{\"a\":1}") });
    let r = cloud_save::format::input_to_bytes(s("ignored"), bridge, sp(0)).unwrap();
    assert_eq!(r, b"{\"a\":1}".to_vec());
}

#[test]
fn input_with_failed_transform_fails_the_invocation() {
    let bridge = Some(TransformOutcome::Failed { msg: "no converter".to_string() });
    assert_eq!(
        cloud_save::format::input_to_bytes(s("x"), bridge, sp(6)),
        Err(SaveError::TransformFailed { msg: "no converter".to_string(), span: sp(6) })
    );
}

#[test]
fn trailing_separators_are_ignored() {
    assert_eq!(path_extension("data.json/"), Some("json".to_string()));
    assert_eq!(path_extension("x.tar.gz//"), Some("gz".to_string()));
    assert_eq!(path_extension("dir//"), None);
}

#[test]
fn lone_dot_segments_are_ignored() {
    assert_eq!(path_extension("a.b/."), Some("b".to_string()));
    assert_eq!(path_extension("."), None);
    assert_eq!(path_extension("a/./"), None);
}

#[test]
fn parent_dir_segment_has_no_extension() {
    assert_eq!(path_extension("foo/.."), None);
    assert_eq!(path_extension(".."), None);
    assert_eq!(path_extension("a/../"), None);
}

#[test]
fn parent_dir_earlier_in_the_path_does_not_matter() {
    assert_eq!(path_extension("a/../b.txt"), Some("txt".to_string()));
}
